use virus_scanner::hasher::{ContentHasher, HASH_CHUNK_SIZE};

const EMPTY: &str = "e3b0c44298fc1c149afbf4c8996fb92427ae41e4649b934ca495991b7852b855";
const ABC: &str = "ba7816bf8f01cfea414140de5dae2223b00361a396177a9cb410ff61f20015ad";

#[test]
fn digest_of_nothing() {
    assert_eq!(ContentHasher::digest(&[]), EMPTY);
    assert_eq!(ContentHasher::new().finalize(), EMPTY);
    assert_eq!(ContentHasher::digest_chunks(&Vec::new()), EMPTY);
}

#[test]
fn digest_of_abc() {
    assert_eq!(ContentHasher::digest(b"abc"), ABC);
}

#[test]
fn digest_does_not_depend_on_the_cut() {
    let mut hasher = ContentHasher::new();
    hasher.update(b"a");
    hasher.update(b"");
    hasher.update(b"bc");
    assert_eq!(hasher.finalize(), ABC);
    assert_eq!(
        ContentHasher::digest_chunks(&vec![b"ab".to_vec(), Vec::new(), b"c".to_vec()]),
        ABC
    );
}

#[test]
fn long_content_is_hashed_in_chunks() {
    assert_eq!(HASH_CHUNK_SIZE, 1024);
    let content: Vec<u8> = (0..5000u32).map(|i| (i % 251) as u8).collect();
    let whole = ContentHasher::digest(&content);
    let chunks: Vec<Vec<u8>> = content.chunks(777).map(|c| c.to_vec()).collect();
    assert_eq!(ContentHasher::digest_chunks(&chunks), whole);
    assert_eq!(whole.len(), 64);
    assert_ne!(whole, ContentHasher::digest(&content[..4999]));
    let million_a = vec![b'a'; 1_000_000];
    assert_eq!(
        ContentHasher::digest(&million_a),
        "cdc76e5c9914fb9281a1c7e284d73e67f1809a48a497200e046d39ccc7112cd0"
    );
}
