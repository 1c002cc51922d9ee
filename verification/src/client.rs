//! The scan of one file against the remote service, as a sequence of steps:
//! each step takes what the caller observed and says what to do next.
//!
//! The caller reads the file, sends the requests and sleeps; every decision
//! in between is taken here. A scan consults the cache, uploads the file,
//! then polls the analysis until it is completed, and keeps the spacing of
//! the rate limiter before every request.

use crate::cache::{after_lookup, after_store, served, ResultCache, ResultCacheView};
use crate::errors::{ProtocolFault, RemoteFailure, RemoteFailureView, ScanError, ScanErrorView};
use crate::json::{keys_distinct, parse_json, parsed_json, Json};
use crate::rate_limiter::{
    after_request, decision_at, RateDecision, RateLimiter, RateLimiterView, API_RATE_LIMIT_MS,
};
use crate::report::{
    analysis_id, analysis_id_of, analysis_status, build_result, is_success, result_from,
    status_of, success_status, FileFacts, FileFactsView,
};
use crate::text::{join, same_text};
use crate::virus_total::{engines_distinct, outcome_view, ScanResult, ScanResultView};
use vstd::prelude::*;

verus! {

/// Root of the service's API.
pub const VT_API_URL: &'static str = "https://www.virustotal.com/api/v3";

/// The header that carries the API key in every request.
pub const API_KEY_HEADER: &'static str = "x-apikey";

/// The name of the form field that carries the file in an upload.
pub const UPLOAD_FIELD: &'static str = "file";

/// How often the analysis of one upload is polled at most.
pub const MAX_POLL_ATTEMPTS: u32 = 30;

/// The pause after a poll that found the analysis unfinished, in
/// milliseconds.
pub const POLL_DELAY_MS: u64 = 2_000;

/// What the caller found when it looked for the file.
#[derive(Debug, Clone, PartialEq, Eq)]
pub enum FileProbe {
    /// There is no such file.
    Missing,
    /// The file is there but could not be read or hashed; the text says why.
    Unreadable(String),
    /// The file was read and hashed.
    Found(FileFacts),
}

/// How a request to the service ended.
#[derive(Debug, Clone, PartialEq, Eq)]
pub enum HttpReply {
    /// No reply arrived; the text is the HTTP client's description.
    Failed(String),
    /// The service answered.
    Answered { status: u16, body: String },
}

/// What the caller reports after it has carried out a command.
#[derive(Debug, Clone, PartialEq, Eq)]
pub enum ScanEvent {
    /// The wait is over.
    Woke,
    /// The file could not be read for the upload; the text says why.
    FileUnreadable(String),
    /// The request was sent and ended this way.
    Replied(HttpReply),
}

/// What the caller has to do next.
#[derive(Debug, PartialEq, Eq)]
pub enum ScanCommand {
    /// Sleep this many milliseconds, then report `Woke`.
    Wait(u64),
    /// Send the file as the field `UPLOAD_FIELD` of a multipart form to
    /// this URL by `POST`, with the API key in the header `API_KEY_HEADER`,
    /// then report the reply.
    Upload(String),
    /// Request this URL by `GET`, with the API key in the header
    /// `API_KEY_HEADER`, then report the reply.
    Poll(String),
    /// The scan has ended.
    Done(Result<ScanResult, ScanError>),
}

/// What the contracts say of a `ScanCommand`.
pub enum ScanCommandView {
    Wait(u64),
    Upload(Seq<char>),
    Poll(Seq<char>),
    Done(Result<ScanResultView, ScanErrorView>),
}

impl View for ScanCommand {
    type V = ScanCommandView;

    open spec fn view(&self) -> ScanCommandView {
        match self {
            ScanCommand::Wait(ms) => ScanCommandView::Wait(*ms),
            ScanCommand::Upload(url) => ScanCommandView::Upload(url@),
            ScanCommand::Poll(url) => ScanCommandView::Poll(url@),
            ScanCommand::Done(outcome) => ScanCommandView::Done(outcome_view(*outcome)),
        }
    }
}

/// Where a scan stands.
#[derive(Debug, Clone, Copy, PartialEq, Eq, Structural)]
pub enum ScanPhase {
    /// Waiting for the rate limiter to let the upload through.
    AwaitingUploadSlot,
    /// The upload is under way.
    Uploading,
    /// Waiting for the rate limiter to let a poll through.
    AwaitingPollSlot,
    /// A poll is under way.
    Polling,
    /// Pausing after a poll that found the analysis unfinished.
    Resting,
    /// The scan has ended.
    Finished,
}

/// The scan of one file.
#[derive(Debug)]
pub struct ScanSession {
    file: Option<FileFacts>,
    phase: ScanPhase,
    analysis_id: String,
    polls: u32,
}

/// What the contracts say of a `ScanSession`.
pub struct ScanSessionView {
    pub file: Option<FileFactsView>,
    pub phase: ScanPhase,
    pub analysis_id: Seq<char>,
    pub polls: u32,
}

/// What holds of every scan: it has not polled more often than allowed, it
/// polls only while polls are left, and it knows its file until it ends.
pub open spec fn session_valid(session: ScanSessionView) -> bool {
    &&& session.polls <= MAX_POLL_ATTEMPTS
    &&& (session.phase == ScanPhase::AwaitingPollSlot || session.phase == ScanPhase::Polling)
        ==> session.polls < MAX_POLL_ATTEMPTS
    &&& session.phase != ScanPhase::Finished ==> session.file is Some
}

impl View for ScanSession {
    type V = ScanSessionView;

    closed spec fn view(&self) -> ScanSessionView {
        ScanSessionView {
            file: match self.file {
                Some(facts) => Some(facts@),
                None => None,
            },
            phase: self.phase,
            analysis_id: self.analysis_id@,
            polls: self.polls,
        }
    }
}

/// The client of the remote service: the API key, and the rate limiter and
/// the cache that all its scans share.
#[derive(Debug)]
pub struct VirusTotal {
    api_key: String,
    limiter: RateLimiter,
    cache: ResultCache,
}

/// What the contracts say of a `VirusTotal`.
pub struct VirusTotalView {
    pub api_key: Seq<char>,
    pub limiter: RateLimiterView,
    pub cache: ResultCacheView,
}

impl View for VirusTotal {
    type V = VirusTotalView;

    closed spec fn view(&self) -> VirusTotalView {
        VirusTotalView { api_key: self.api_key@, limiter: self.limiter@, cache: self.cache@ }
    }
}

/// Client, scan and command after a step.
pub struct Step {
    pub client: VirusTotalView,
    pub session: ScanSessionView,
    pub command: ScanCommandView,
}

/// Where files are uploaded.
pub open spec fn upload_url() -> Seq<char> {
    VT_API_URL@ + "/files"@
}

/// Where the analysis with this identifier is read.
pub open spec fn analysis_url(id: Seq<char>) -> Seq<char> {
    VT_API_URL@ + "/analyses/"@ + id
}

/// Where the API key is checked.
pub open spec fn key_check_url() -> Seq<char> {
    VT_API_URL@ + "/users/current"@
}

/// The scan ends with `outcome`.
pub open spec fn ended(
    client: VirusTotalView,
    session: ScanSessionView,
    outcome: Result<ScanResultView, ScanErrorView>,
) -> Step {
    Step {
        client,
        session: ScanSessionView { phase: ScanPhase::Finished, ..session },
        command: ScanCommandView::Done(outcome),
    }
}

/// The scan asks the rate limiter at `now` for the upload: it uploads if
/// let through and waits as long as told otherwise.
pub open spec fn ask_upload(client: VirusTotalView, session: ScanSessionView, now: u64) -> Step {
    let after = VirusTotalView { limiter: after_request(client.limiter, now), ..client };
    match decision_at(client.limiter, now) {
        RateDecision::Proceed => Step {
            client: after,
            session: ScanSessionView { phase: ScanPhase::Uploading, ..session },
            command: ScanCommandView::Upload(upload_url()),
        },
        RateDecision::Wait(ms) => Step {
            client: after,
            session: ScanSessionView { phase: ScanPhase::AwaitingUploadSlot, ..session },
            command: ScanCommandView::Wait(ms),
        },
    }
}

/// The scan asks the rate limiter at `now` for a poll: it polls if let
/// through and waits as long as told otherwise.
pub open spec fn ask_poll(client: VirusTotalView, session: ScanSessionView, now: u64) -> Step {
    let after = VirusTotalView { limiter: after_request(client.limiter, now), ..client };
    match decision_at(client.limiter, now) {
        RateDecision::Proceed => Step {
            client: after,
            session: ScanSessionView { phase: ScanPhase::Polling, ..session },
            command: ScanCommandView::Poll(analysis_url(session.analysis_id)),
        },
        RateDecision::Wait(ms) => Step {
            client: after,
            session: ScanSessionView { phase: ScanPhase::AwaitingPollSlot, ..session },
            command: ScanCommandView::Wait(ms),
        },
    }
}

/// The first step of a scan.
///
/// A missing or unreadable file ends it at once. So does a verdict that the
/// cache serves for the file's digest: no request goes out. Otherwise the
/// scan asks for the upload.
pub open spec fn first_step(client: VirusTotalView, probe: FileProbe, now: u64) -> Step {
    let blank = ScanSessionView {
        file: None,
        phase: ScanPhase::Finished,
        analysis_id: Seq::empty(),
        polls: 0,
    };
    match probe {
        FileProbe::Missing => ended(client, blank, Err(ScanErrorView::NotFound)),
        FileProbe::Unreadable(why) => ended(client, blank, Err(ScanErrorView::IoError(why@))),
        FileProbe::Found(file) => {
            let looked = VirusTotalView {
                cache: after_lookup(client.cache, file.digest@, now),
                ..client
            };
            let session = ScanSessionView { file: Some(file@), ..blank };
            match served(client.cache, file.digest@, now) {
                Some(result) => ended(looked, session, Ok(result)),
                None => ask_upload(looked, session, now),
            }
        },
    }
}

/// The step after an upload was answered with a success status and
/// `document` was read from the body: without a document or without an
/// identifier in it the scan fails, otherwise it asks for its first poll.
pub open spec fn upload_read(
    client: VirusTotalView,
    session: ScanSessionView,
    document: Option<Json>,
    now: u64,
) -> Step {
    if session.phase != ScanPhase::Uploading {
        ended(client, session, Err(ScanErrorView::ProtocolError(ProtocolFault::UnexpectedEvent)))
    } else {
        match document {
            None => ended(
                client,
                session,
                Err(ScanErrorView::ProtocolError(ProtocolFault::MalformedUpload)),
            ),
            Some(reply) => match analysis_id_of(reply) {
                None => ended(
                    client,
                    session,
                    Err(ScanErrorView::ProtocolError(ProtocolFault::MissingAnalysisId)),
                ),
                Some(id) => ask_poll(
                    client,
                    ScanSessionView { analysis_id: id, polls: 0, ..session },
                    now,
                ),
            },
        }
    }
}

/// The step after a poll was answered with a success status and `document`
/// was read from the body.
///
/// Without a document or without a status in it the scan fails. With the
/// status `completed` it ends with the record built from the document,
/// which is stored in the cache under the file's digest. With any other
/// status the poll is counted and the scan pauses.
pub open spec fn analysis_read(
    client: VirusTotalView,
    session: ScanSessionView,
    document: Option<Json>,
    now: u64,
) -> Step {
    if session.phase != ScanPhase::Polling || session.file is None {
        ended(client, session, Err(ScanErrorView::ProtocolError(ProtocolFault::UnexpectedEvent)))
    } else {
        match document {
            None => ended(
                client,
                session,
                Err(ScanErrorView::ProtocolError(ProtocolFault::MalformedAnalysis)),
            ),
            Some(reply) => match status_of(reply) {
                None => ended(
                    client,
                    session,
                    Err(ScanErrorView::ProtocolError(ProtocolFault::MissingStatus)),
                ),
                Some(status) => if status == "completed"@ {
                    let file = session.file->0;
                    let result = result_from(file, reply, now);
                    ended(
                        VirusTotalView {
                            cache: after_store(client.cache, file.digest, result, now),
                            ..client
                        },
                        session,
                        Ok(result),
                    )
                } else {
                    Step {
                        client,
                        session: ScanSessionView {
                            phase: ScanPhase::Resting,
                            polls: (session.polls + 1) as u32,
                            ..session
                        },
                        command: ScanCommandView::Wait(POLL_DELAY_MS),
                    }
                },
            },
        }
    }
}

/// The step after the upload ended with `reply`: a missing reply and a
/// status outside 200..=299 fail the scan, any other reply is read as JSON.
pub open spec fn upload_answered(
    client: VirusTotalView,
    session: ScanSessionView,
    reply: HttpReply,
    now: u64,
) -> Step {
    match reply {
        HttpReply::Failed(why) => ended(
            client,
            session,
            Err(ScanErrorView::UploadError(RemoteFailureView::Transport(why@))),
        ),
        HttpReply::Answered { status, body } => if success_status(status) {
            upload_read(client, session, parsed_json(body@), now)
        } else {
            ended(
                client,
                session,
                Err(ScanErrorView::UploadError(RemoteFailureView::Status(status))),
            )
        },
    }
}

/// The step after a poll ended with `reply`: a missing reply and a status
/// outside 200..=299 fail the scan, any other reply is read as JSON.
pub open spec fn poll_answered(
    client: VirusTotalView,
    session: ScanSessionView,
    reply: HttpReply,
    now: u64,
) -> Step {
    match reply {
        HttpReply::Failed(why) => ended(
            client,
            session,
            Err(ScanErrorView::AnalysisError(RemoteFailureView::Transport(why@))),
        ),
        HttpReply::Answered { status, body } => if success_status(status) {
            analysis_read(client, session, parsed_json(body@), now)
        } else {
            ended(
                client,
                session,
                Err(ScanErrorView::AnalysisError(RemoteFailureView::Status(status))),
            )
        },
    }
}

/// The step that follows `event` at `now`.
///
/// After a wait the scan asks the rate limiter again, or, after the pause
/// that follows a poll, asks for the next poll if polls are left and times
/// out if none is. After a request it goes by the reply. An event that the
/// scan is not waiting for ends it as a protocol error.
pub open spec fn next_step(
    client: VirusTotalView,
    session: ScanSessionView,
    event: ScanEvent,
    now: u64,
) -> Step {
    match (session.phase, event) {
        (ScanPhase::AwaitingUploadSlot, ScanEvent::Woke) => ask_upload(client, session, now),
        (ScanPhase::Uploading, ScanEvent::FileUnreadable(why)) => ended(
            client,
            session,
            Err(ScanErrorView::IoError(why@)),
        ),
        (ScanPhase::Uploading, ScanEvent::Replied(reply)) => upload_answered(
            client,
            session,
            reply,
            now,
        ),
        (ScanPhase::AwaitingPollSlot, ScanEvent::Woke) => ask_poll(client, session, now),
        (ScanPhase::Polling, ScanEvent::Replied(reply)) => poll_answered(
            client,
            session,
            reply,
            now,
        ),
        (ScanPhase::Resting, ScanEvent::Woke) => if session.polls < MAX_POLL_ATTEMPTS {
            ask_poll(client, session, now)
        } else {
            ended(client, session, Err(ScanErrorView::Timeout))
        },
        _ => ended(
            client,
            session,
            Err(ScanErrorView::ProtocolError(ProtocolFault::UnexpectedEvent)),
        ),
    }
}

/// A scan whose digest the cache serves ends at once with the cached
/// record. It asks the rate limiter for nothing and sends nothing.
pub proof fn lemma_cached_verdict_served(
    client: VirusTotalView,
    file: FileFacts,
    now: u64,
    verdict: ScanResultView,
)
    requires
        served(client.cache, file.digest@, now) == Some(verdict),
    ensures
        first_step(client, FileProbe::Found(file), now).command == ScanCommandView::Done(
            Ok(verdict),
        ),
        first_step(client, FileProbe::Found(file), now).client == client,
{
}

/// Of two scans of contents with the same digest, the second returns the
/// record of the first without a request to the service, if it starts
/// before the record has reached the expiration window: when a scan ends
/// at `first_end` with a completed analysis, a scan that starts at
/// `second_start` ends at once with the same record, and the rate limiter
/// is as the first scan left it.
pub proof fn lemma_rescan_served_from_cache(
    client: VirusTotalView,
    session: ScanSessionView,
    document: Json,
    first_end: u64,
    again: FileFacts,
    second_start: u64,
)
    requires
        session.phase == ScanPhase::Polling,
        session.file is Some,
        status_of(document) == Some("completed"@),
        again.digest@ == session.file->0.digest,
        crate::cache::age(first_end, second_start) < client.cache.expiration,
    ensures
        ({
            let first = analysis_read(client, session, Some(document), first_end);
            let second = first_step(first.client, FileProbe::Found(again), second_start);
            &&& first.command == ScanCommandView::Done(
                Ok(result_from(session.file->0, document, first_end)),
            )
            &&& second.command == first.command
            &&& second.client == first.client
        }),
{
    let first = analysis_read(client, session, Some(document), first_end);
    let record = result_from(session.file->0, document, first_end);
    assert(first.client.cache.entries.contains_key(again.digest@));
    assert(first.client.cache.entries[again.digest@].inserted_at == first_end);
    assert(served(first.client.cache, again.digest@, second_start) == Some(record));
    lemma_cached_verdict_served(first.client, again, second_start, record);
}

/// No request goes out but through the rate limiter: whenever a step tells
/// the caller to upload or to poll, the limiter has let a call through at
/// that instant and has recorded it.
pub proof fn lemma_requests_pass_the_limiter(
    client: VirusTotalView,
    session: ScanSessionView,
    event: ScanEvent,
    probe: FileProbe,
    now: u64,
)
    ensures
        ({
            let next = next_step(client, session, event, now);
            next.command is Upload || next.command is Poll ==> decision_at(client.limiter, now)
                == RateDecision::Proceed && next.client.limiter.last_call == Some(now)
        }),
        ({
            let first = first_step(client, probe, now);
            first.command is Upload || first.command is Poll ==> decision_at(client.limiter, now)
                == RateDecision::Proceed && first.client.limiter.last_call == Some(now)
        }),
{
}

/// Only a scan that succeeds writes to the cache: a step that ends the
/// scan with a record stores that record under the digest of the file, and
/// any other step leaves the cache as it is.
pub proof fn lemma_only_success_is_cached(
    client: VirusTotalView,
    session: ScanSessionView,
    event: ScanEvent,
    now: u64,
)
    ensures
        ({
            let next = next_step(client, session, event, now);
            match next.command {
                ScanCommandView::Done(Ok(record)) => session.file is Some && next.client.cache
                    == after_store(client.cache, session.file->0.digest, record, now),
                _ => next.client.cache == client.cache,
            }
        }),
{
}

/// Whether a command that ends a scan with a record ends it with one in
/// which no engine reports twice.
pub open spec fn reports_each_engine_once(command: ScanCommandView) -> bool {
    match command {
        ScanCommandView::Done(Ok(result)) => result.vendor_results is Some && engines_distinct(
            result.vendor_results->0,
        ),
        _ => true,
    }
}

/// What the check of an API key asks the caller to do.
#[derive(Debug, Clone, PartialEq, Eq)]
pub enum KeyCheck {
    /// Sleep this many milliseconds, then ask again.
    Wait(u64),
    /// Request this URL by `GET`, with the key in the header
    /// `API_KEY_HEADER`.
    Ask(String),
}

/// What the contracts say of a `KeyCheck`.
pub enum KeyCheckView {
    Wait(u64),
    Ask(Seq<char>),
}

impl View for KeyCheck {
    type V = KeyCheckView;

    open spec fn view(&self) -> KeyCheckView {
        match self {
            KeyCheck::Wait(ms) => KeyCheckView::Wait(*ms),
            KeyCheck::Ask(url) => KeyCheckView::Ask(url@),
        }
    }
}

/// What the reply to a key check says of the key: valid exactly if the
/// status is a success.
pub open spec fn key_verdict_of(reply: HttpReply) -> Result<bool, RemoteFailureView> {
    match reply {
        HttpReply::Failed(why) => Err(RemoteFailureView::Transport(why@)),
        HttpReply::Answered { status, body } => Ok(success_status(status)),
    }
}

impl ScanSession {
    #[verifier::type_invariant]
    spec fn valid(self) -> bool {
        session_valid(self@)
    }

    /// Where the scan stands.
    pub fn phase(&self) -> (phase: ScanPhase)
        ensures
            phase == self@.phase,
    {
        self.phase
    }

    /// How many polls found the analysis unfinished.
    pub fn polls(&self) -> (polls: u32)
        ensures
            polls == self@.polls,
            polls <= MAX_POLL_ATTEMPTS,
    {
        proof {
            use_type_invariant(self);
        }
        self.polls
    }

    /// The identifier of the analysis, once the upload was accepted.
    pub fn analysis_id(&self) -> (id: &str)
        ensures
            id@ == self@.analysis_id,
    {
        self.analysis_id.as_str()
    }
}

impl VirusTotal {
    /// A client with this key, with a rate limiter of the spacing that the
    /// service asks for, and an empty cache.
    pub fn new(api_key: String) -> (client: VirusTotal)
        ensures
            client@.api_key == api_key@,
            client@.limiter == (RateLimiterView {
                min_interval: API_RATE_LIMIT_MS,
                last_call: None,
            }),
            client@.cache.entries == Map::<Seq<char>, crate::cache::CachedView>::empty(),
            client@.cache.expiration == crate::cache::CACHE_EXPIRATION_MS,
    {
        VirusTotal {
            api_key,
            limiter: RateLimiter::new(API_RATE_LIMIT_MS),
            cache: ResultCache::new(),
        }
    }

    /// A client with this key that uses the given limiter and cache.
    pub fn with_parts(api_key: String, limiter: RateLimiter, cache: ResultCache) -> (client:
        VirusTotal)
        ensures
            client@ == (VirusTotalView {
                api_key: api_key@,
                limiter: limiter@,
                cache: cache@,
            }),
    {
        VirusTotal { api_key, limiter, cache }
    }

    /// Replaces the API key. Limiter and cache stay as they are.
    pub fn set_api_key(&mut self, api_key: String)
        ensures
            final(self)@ == (VirusTotalView { api_key: api_key@, ..old(self)@ }),
    {
        self.api_key = api_key;
    }

    /// The API key, to be sent in the header `API_KEY_HEADER`.
    pub fn api_key(&self) -> (key: &str)
        ensures
            key@ == self@.api_key,
    {
        self.api_key.as_str()
    }

    /// The instant of the last request that the rate limiter let through.
    pub fn last_call(&self) -> (last: Option<u64>)
        ensures
            last == self@.limiter.last_call,
    {
        self.limiter.last_call()
    }

    /// The number of verdicts in the cache.
    pub fn cached(&self) -> (count: usize)
        ensures
            count == self@.cache.entries.dom().len(),
    {
        self.cache.len()
    }

    fn finish(session: &mut ScanSession, outcome: Result<ScanResult, ScanError>) -> (command:
        ScanCommand)
        ensures
            final(session)@ == (ScanSessionView { phase: ScanPhase::Finished, ..old(session)@ }),
            command@ == ScanCommandView::Done(outcome_view(outcome)),
    {
        proof {
            use_type_invariant(&*session);
        }
        session.phase = ScanPhase::Finished;
        ScanCommand::Done(outcome)
    }

    fn request_upload(&mut self, session: &mut ScanSession, now: u64) -> (command: ScanCommand)
        requires
            old(session)@.file is Some,
        ensures
            final(self)@ == ask_upload(old(self)@, old(session)@, now).client,
            final(session)@ == ask_upload(old(self)@, old(session)@, now).session,
            command@ == ask_upload(old(self)@, old(session)@, now).command,
    {
        proof {
            use_type_invariant(&*session);
        }
        match self.limiter.try_acquire(now) {
            RateDecision::Proceed => {
                session.phase = ScanPhase::Uploading;
                ScanCommand::Upload(join(VT_API_URL, "/files"))
            },
            RateDecision::Wait(ms) => {
                session.phase = ScanPhase::AwaitingUploadSlot;
                ScanCommand::Wait(ms)
            },
        }
    }

    fn request_poll(&mut self, session: &mut ScanSession, now: u64) -> (command: ScanCommand)
        requires
            old(session)@.file is Some,
            old(session)@.polls < MAX_POLL_ATTEMPTS,
        ensures
            final(self)@ == ask_poll(old(self)@, old(session)@, now).client,
            final(session)@ == ask_poll(old(self)@, old(session)@, now).session,
            command@ == ask_poll(old(self)@, old(session)@, now).command,
    {
        match self.limiter.try_acquire(now) {
            RateDecision::Proceed => {
                session.phase = ScanPhase::Polling;
                let mut url = join(VT_API_URL, "/analyses/");
                url.append(session.analysis_id.as_str());
                ScanCommand::Poll(url)
            },
            RateDecision::Wait(ms) => {
                session.phase = ScanPhase::AwaitingPollSlot;
                ScanCommand::Wait(ms)
            },
        }
    }

    /// Starts the scan of the file that `probe` describes, at `now`.
    pub fn scan_file(&mut self, probe: FileProbe, now: u64) -> (started: (ScanSession, ScanCommand))
        ensures
            final(self)@ == first_step(old(self)@, probe, now).client,
            started.0@ == first_step(old(self)@, probe, now).session,
            started.1@ == first_step(old(self)@, probe, now).command,
            session_valid(started.0@),
    {
        let mut session = ScanSession {
            file: None,
            phase: ScanPhase::Finished,
            analysis_id: String::new(),
            polls: 0,
        };
        match probe {
            FileProbe::Missing => (session, ScanCommand::Done(Err(ScanError::NotFound))),
            FileProbe::Unreadable(why) => (session, ScanCommand::Done(Err(ScanError::IoError(why)))),
            FileProbe::Found(file) => {
                let hit = self.cache.lookup(file.digest.as_str(), now);
                session.file = Some(file);
                match hit {
                    Some(result) => (session, ScanCommand::Done(Ok(result))),
                    None => {
                        let command = self.request_upload(&mut session, now);
                        (session, command)
                    },
                }
            },
        }
    }

    /// Goes on after an upload that was answered with a success status,
    /// with what was read from its body: `None` where that is no JSON.
    pub fn accept_upload(
        &mut self,
        session: &mut ScanSession,
        document: Option<Json>,
        now: u64,
    ) -> (command: ScanCommand)
        ensures
            final(self)@ == upload_read(old(self)@, old(session)@, document, now).client,
            final(session)@ == upload_read(old(self)@, old(session)@, document, now).session,
            command@ == upload_read(old(self)@, old(session)@, document, now).command,
    {
        proof {
            use_type_invariant(&*session);
        }
        if session.phase != ScanPhase::Uploading {
            return Self::finish(
                session,
                Err(ScanError::ProtocolError(ProtocolFault::UnexpectedEvent)),
            );
        }
        let reply = match document {
            Some(reply) => reply,
            None => {
                return Self::finish(
                    session,
                    Err(ScanError::ProtocolError(ProtocolFault::MalformedUpload)),
                );
            },
        };
        match analysis_id(&reply) {
            None => Self::finish(
                session,
                Err(ScanError::ProtocolError(ProtocolFault::MissingAnalysisId)),
            ),
            Some(id) => {
                session.polls = 0;
                session.analysis_id = id;
                self.request_poll(session, now)
            },
        }
    }

    /// Goes on after a poll that was answered with a success status, with
    /// what was read from its body: `None` where that is no JSON.
    pub fn accept_analysis(
        &mut self,
        session: &mut ScanSession,
        document: Option<Json>,
        now: u64,
    ) -> (command: ScanCommand)
        ensures
            final(self)@ == analysis_read(old(self)@, old(session)@, document, now).client,
            final(session)@ == analysis_read(old(self)@, old(session)@, document, now).session,
            command@ == analysis_read(old(self)@, old(session)@, document, now).command,
            document is Some && keys_distinct(document->0) ==> reports_each_engine_once(command@),
    {
        proof {
            use_type_invariant(&*session);
        }
        if session.phase != ScanPhase::Polling {
            return Self::finish(
                session,
                Err(ScanError::ProtocolError(ProtocolFault::UnexpectedEvent)),
            );
        }
        let reply = match document {
            Some(reply) => reply,
            None => {
                return Self::finish(
                    session,
                    Err(ScanError::ProtocolError(ProtocolFault::MalformedAnalysis)),
                );
            },
        };
        let status = match analysis_status(&reply) {
            Some(status) => status,
            None => {
                return Self::finish(
                    session,
                    Err(ScanError::ProtocolError(ProtocolFault::MissingStatus)),
                );
            },
        };
        if same_text(status.as_str(), "completed") {
            let built = match &session.file {
                Some(file) => Some((file.digest.clone(), build_result(file, &reply, now))),
                None => None,
            };
            match built {
                Some((digest, result)) => {
                    self.cache.store(digest, result.duplicate(), now);
                    Self::finish(session, Ok(result))
                },
                None => Self::finish(
                    session,
                    Err(ScanError::ProtocolError(ProtocolFault::UnexpectedEvent)),
                ),
            }
        } else {
            session.phase = ScanPhase::Resting;
            session.polls = session.polls + 1;
            ScanCommand::Wait(POLL_DELAY_MS)
        }
    }

    /// Goes on with a scan after `event`, at `now`.
    pub fn resume(&mut self, session: &mut ScanSession, event: ScanEvent, now: u64) -> (command:
        ScanCommand)
        ensures
            final(self)@ == next_step(old(self)@, old(session)@, event, now).client,
            final(session)@ == next_step(old(self)@, old(session)@, event, now).session,
            command@ == next_step(old(self)@, old(session)@, event, now).command,
            session_valid(old(session)@),
            session_valid(final(session)@),
            old(session)@.phase == ScanPhase::Polling ==> reports_each_engine_once(command@),
    {
        proof {
            use_type_invariant(&*session);
        }
        let phase = session.phase;
        let command = match event {
            ScanEvent::Woke => {
                if phase == ScanPhase::AwaitingUploadSlot {
                    self.request_upload(session, now)
                } else if phase == ScanPhase::AwaitingPollSlot {
                    self.request_poll(session, now)
                } else if phase == ScanPhase::Resting {
                    if session.polls < MAX_POLL_ATTEMPTS {
                        self.request_poll(session, now)
                    } else {
                        Self::finish(session, Err(ScanError::Timeout))
                    }
                } else {
                    Self::finish(
                        session,
                        Err(ScanError::ProtocolError(ProtocolFault::UnexpectedEvent)),
                    )
                }
            },
            ScanEvent::FileUnreadable(why) => {
                if phase == ScanPhase::Uploading {
                    Self::finish(session, Err(ScanError::IoError(why)))
                } else {
                    Self::finish(
                        session,
                        Err(ScanError::ProtocolError(ProtocolFault::UnexpectedEvent)),
                    )
                }
            },
            ScanEvent::Replied(reply) => {
                if phase == ScanPhase::Uploading {
                    match reply {
                        HttpReply::Failed(why) => Self::finish(
                            session,
                            Err(ScanError::UploadError(RemoteFailure::Transport(why))),
                        ),
                        HttpReply::Answered { status, body } => {
                            if is_success(status) {
                                let document = parse_json(body.as_str());
                                self.accept_upload(session, document, now)
                            } else {
                                Self::finish(
                                    session,
                                    Err(ScanError::UploadError(RemoteFailure::Status(status))),
                                )
                            }
                        },
                    }
                } else if phase == ScanPhase::Polling {
                    match reply {
                        HttpReply::Failed(why) => Self::finish(
                            session,
                            Err(ScanError::AnalysisError(RemoteFailure::Transport(why))),
                        ),
                        HttpReply::Answered { status, body } => {
                            if is_success(status) {
                                let document = parse_json(body.as_str());
                                self.accept_analysis(session, document, now)
                            } else {
                                Self::finish(
                                    session,
                                    Err(ScanError::AnalysisError(RemoteFailure::Status(status))),
                                )
                            }
                        },
                    }
                } else {
                    Self::finish(
                        session,
                        Err(ScanError::ProtocolError(ProtocolFault::UnexpectedEvent)),
                    )
                }
            },
        };
        proof {
            use_type_invariant(&*session);
        }
        command
    }

    /// Asks the rate limiter at `now` for a check of the API key.
    pub fn test_api_key(&mut self, now: u64) -> (check: KeyCheck)
        ensures
            final(self)@ == (VirusTotalView {
                limiter: after_request(old(self)@.limiter, now),
                ..old(self)@
            }),
            check@ == match decision_at(old(self)@.limiter, now) {
                RateDecision::Proceed => KeyCheckView::Ask(key_check_url()),
                RateDecision::Wait(ms) => KeyCheckView::Wait(ms),
            },
    {
        match self.limiter.try_acquire(now) {
            RateDecision::Proceed => KeyCheck::Ask(join(VT_API_URL, "/users/current")),
            RateDecision::Wait(ms) => KeyCheck::Wait(ms),
        }
    }

    /// What the reply to a key check says of the key.
    pub fn key_verdict(reply: &HttpReply) -> (verdict: Result<bool, RemoteFailure>)
        ensures
            match verdict {
                Ok(valid) => key_verdict_of(*reply) == Ok::<bool, RemoteFailureView>(valid),
                Err(failure) => key_verdict_of(*reply) == Err::<bool, RemoteFailureView>(failure@),
            },
    {
        match reply {
            HttpReply::Failed(why) => Err(RemoteFailure::Transport(why.clone())),
            HttpReply::Answered { status, body } => Ok(is_success(*status)),
        }
    }
}

} // verus!
