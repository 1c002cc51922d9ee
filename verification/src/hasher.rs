//! The content digest of a file: SHA-256, in lower-case hexadecimal.

use vstd::prelude::*;
use vstd::slice::slice_subrange;

verus! {

/// The number of bytes that are hashed at a time.
pub const HASH_CHUNK_SIZE: usize = 1024;

/// A running SHA-256 computation of the crate `sha2`. Verus cannot take the
/// type `sha2::Sha256`, so it is kept behind this one; what it holds is
/// named by `hasher_input`.
#[verifier::external_body]
pub struct Sha256State {
    inner: sha2::Sha256,
}

/// Name of the bytes that a running computation has been fed, in order.
pub uninterp spec fn hasher_input(state: Sha256State) -> Seq<u8>;

/// Name of the SHA-256 digest of `data`, written as 64 lower-case
/// hexadecimal digits.
pub uninterp spec fn sha256_hex(data: Seq<u8>) -> Seq<char>;

/// `Digest::new` of `sha2::Sha256`: a computation that has been fed
/// nothing.
#[verifier::external_body]
fn sha256_new() -> (state: Sha256State)
    ensures
        hasher_input(state) == Seq::<u8>::empty(),
{
    Sha256State { inner: sha2::Digest::new() }
}

/// `Digest::update` of `sha2::Sha256`: feeds `chunk` after what was fed
/// before.
#[verifier::external_body]
fn sha256_update(state: &mut Sha256State, chunk: &[u8])
    ensures
        hasher_input(*final(state)) == hasher_input(*old(state)) + chunk@,
{
    sha2::Digest::update(&mut state.inner, chunk)
}

/// `Digest::finalize` of `sha2::Sha256`, formatted with `{:x}`: the digest
/// of all that was fed. The contract only names the result.
#[verifier::external_body]
fn sha256_finish(state: Sha256State) -> (hex: String)
    ensures
        hex@ == sha256_hex(hasher_input(state)),
{
    format!("{:x}", sha2::Digest::finalize(state.inner))
}

/// Computes the digest of contents that arrive piece by piece. Its view is
/// all that it has been fed so far.
pub struct ContentHasher {
    state: Sha256State,
}

impl View for ContentHasher {
    type V = Seq<u8>;

    closed spec fn view(&self) -> Seq<u8> {
        hasher_input(self.state)
    }
}

/// The pieces of `chunks` one after the other.
pub open spec fn concatenated(chunks: Seq<Vec<u8>>) -> Seq<u8>
    decreases chunks.len(),
{
    if chunks.len() == 0 {
        Seq::empty()
    } else {
        concatenated(chunks.drop_last()) + chunks.last()@
    }
}

impl ContentHasher {
    /// A hasher that has been fed nothing.
    pub fn new() -> (hasher: ContentHasher)
        ensures
            hasher@ == Seq::<u8>::empty(),
    {
        ContentHasher { state: sha256_new() }
    }

    /// Feeds `chunk` after what was fed before.
    pub fn update(&mut self, chunk: &[u8])
        ensures
            final(self)@ == old(self)@ + chunk@,
    {
        sha256_update(&mut self.state, chunk);
    }

    /// The digest of all that was fed.
    pub fn finalize(self) -> (digest: String)
        ensures
            digest@ == sha256_hex(self@),
    {
        sha256_finish(self.state)
    }

    /// The digest of `content`, computed over pieces of `HASH_CHUNK_SIZE`
    /// bytes.
    pub fn digest(content: &[u8]) -> (digest: String)
        ensures
            digest@ == sha256_hex(content@),
    {
        let mut hasher = ContentHasher::new();
        let mut done: usize = 0;
        assert(content@.take(0) =~= Seq::<u8>::empty());
        while done < content.len()
            invariant
                done <= content.len(),
                hasher@ == content@.take(done as int),
            decreases content.len() - done,
        {
            let left = content.len() - done;
            let take = if left < HASH_CHUNK_SIZE {
                left
            } else {
                HASH_CHUNK_SIZE
            };
            let chunk = slice_subrange(content, done, done + take);
            hasher.update(chunk);
            assert(content@.take(done as int) + content@.subrange(done as int, done + take)
                =~= content@.take(done + take));
            done = done + take;
        }
        assert(content@.take(done as int) =~= content@);
        hasher.finalize()
    }

    /// The digest of contents that were read as `chunks`, in this order: the
    /// digest of their concatenation, however the contents were cut.
    pub fn digest_chunks(chunks: &Vec<Vec<u8>>) -> (digest: String)
        ensures
            digest@ == sha256_hex(concatenated(chunks@)),
    {
        let mut hasher = ContentHasher::new();
        let mut i: usize = 0;
        assert(chunks@.take(0) =~= Seq::<Vec<u8>>::empty());
        while i < chunks.len()
            invariant
                i <= chunks.len(),
                hasher@ == concatenated(chunks@.take(i as int)),
            decreases chunks.len() - i,
        {
            proof {
                assert(chunks@.take(i + 1).drop_last() =~= chunks@.take(i as int));
                assert(chunks@.take(i + 1).last() == chunks@[i as int]);
            }
            hasher.update(chunks[i].as_slice());
            i = i + 1;
        }
        assert(chunks@.take(i as int) =~= chunks@);
        hasher.finalize()
    }
}

} // verus!
