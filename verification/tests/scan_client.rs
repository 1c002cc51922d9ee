use virus_scanner::cache::ResultCache;
use virus_scanner::client::{
    FileProbe, HttpReply, KeyCheck, ScanCommand, ScanEvent, ScanPhase, ScanSession, VirusTotal,
};
use virus_scanner::errors::{ProtocolFault, RemoteFailure, ScanError};
use virus_scanner::json::Json;
use virus_scanner::rate_limiter::RateLimiter;
use virus_scanner::report::FileFacts;
use virus_scanner::virus_total::{ScanResult, ScanStatus};

const QUEUED: &str = r#"{"data":{"attributes":{"status":"queued"}}}"#;
const COMPLETED: &str = r#"{"data":{"attributes":{"status":"completed","stats":{"malicious":2,"suspicious":0,"total":70},"results":{"Alpha":{"category":"malicious","result":"Trojan.X","engine_version":"1.2","engine_update":"20240101"},"Beta":{"category":"undetected","result":null,"engine_version":"7"}}}}}"#;
const UPLOADED: &str = r#"{"data":{"type":"analysis","id":"abc123"}}"#;

fn sample_file() -> FileFacts {
    FileFacts {
        path: "/tmp/sample.exe".to_string(),
        name: Some("sample.exe".to_string()),
        size: 4096,
        digest: "00ff".to_string(),
    }
}

fn unlimited_client() -> VirusTotal {
    VirusTotal::with_parts("key".to_string(), RateLimiter::new(0), ResultCache::new())
}

fn answered(body: &str) -> ScanEvent {
    ScanEvent::Replied(HttpReply::Answered { status: 200, body: body.to_string() })
}

fn start_polling(client: &mut VirusTotal) -> ScanSession {
    let (mut session, command) = client.scan_file(FileProbe::Found(sample_file()), 1_000);
    assert_eq!(
        command,
        ScanCommand::Upload("https://www.virustotal.com/api/v3/files".to_string())
    );
    let command = client.resume(&mut session, answered(UPLOADED), 1_500);
    assert_eq!(
        command,
        ScanCommand::Poll("https://www.virustotal.com/api/v3/analyses/abc123".to_string())
    );
    session
}

fn expect_done(command: ScanCommand) -> Result<ScanResult, ScanError> {
    match command {
        ScanCommand::Done(outcome) => outcome,
        other => panic!("the scan goes on: {:?}", other),
    }
}

#[test]
fn missing_file_is_not_found() {
    let mut client = unlimited_client();
    let (session, command) = client.scan_file(FileProbe::Missing, 5);
    assert_eq!(command, ScanCommand::Done(Err(ScanError::NotFound)));
    assert_eq!(session.phase(), ScanPhase::Finished);
    assert_eq!(client.last_call(), None);
}

#[test]
fn unreadable_file_is_io_error() {
    let mut client = unlimited_client();
    let (_, command) =
        client.scan_file(FileProbe::Unreadable("Failed to open file: denied".to_string()), 5);
    assert_eq!(
        command,
        ScanCommand::Done(Err(ScanError::IoError("Failed to open file: denied".to_string())))
    );
}

#[test]
fn poll_loop_completes_after_six_polls() {
    let mut client = unlimited_client();
    let mut session = start_polling(&mut client);
    let mut now: u64 = 2_000;
    let mut polls = 1;
    let mut waits: Vec<u64> = Vec::new();
    let mut outcome = None;
    for round in 0..6 {
        let body = if round < 5 { QUEUED } else { COMPLETED };
        match client.resume(&mut session, answered(body), now) {
            ScanCommand::Wait(ms) => {
                waits.push(ms);
                now += ms;
                match client.resume(&mut session, ScanEvent::Woke, now) {
                    ScanCommand::Poll(url) => {
                        assert_eq!(url, "https://www.virustotal.com/api/v3/analyses/abc123");
                        polls += 1;
                    }
                    other => panic!("expected a poll, got {:?}", other),
                }
            }
            ScanCommand::Done(done) => {
                outcome = Some(done);
            }
            other => panic!("unexpected command {:?}", other),
        }
    }
    assert_eq!(polls, 6);
    assert_eq!(waits, vec![2_000, 2_000, 2_000, 2_000, 2_000]);
    assert_eq!(session.polls(), 5);
    let result = outcome.expect("the scan has ended").expect("the scan succeeded");
    assert_eq!(result.status, ScanStatus::Malicious);
    assert_eq!(result.detection_count, Some(2));
    assert_eq!(result.total_engines, Some(70));
    assert_eq!(result.scan_date, now);
}

#[test]
fn completed_analysis_builds_the_record() {
    let mut client = unlimited_client();
    let mut session = start_polling(&mut client);
    let result = expect_done(client.resume(&mut session, answered(COMPLETED), 9_000)).unwrap();
    assert_eq!(result.file_path, "/tmp/sample.exe");
    assert_eq!(result.file_name, "sample.exe");
    assert_eq!(result.file_size, 4096);
    assert_eq!(result.file_hash, "00ff");
    assert_eq!(result.scan_date, 9_000);
    assert_eq!(result.status, ScanStatus::Malicious);
    assert_eq!(
        result.permalink.as_deref(),
        Some("https://www.virustotal.com/gui/file/00ff/detection")
    );
    let engines = result.vendor_results.expect("engine reports");
    assert_eq!(engines.len(), 2);
    assert_eq!(engines[0].engine_name, "Alpha");
    assert!(engines[0].detected);
    assert_eq!(engines[0].result.as_deref(), Some("Trojan.X"));
    assert_eq!(engines[0].version.as_deref(), Some("1.2"));
    assert_eq!(engines[0].engine_version.as_deref(), Some("1.2"));
    assert_eq!(engines[0].engine_update.as_deref(), Some("20240101"));
    assert_eq!(engines[1].engine_name, "Beta");
    assert!(!engines[1].detected);
    assert_eq!(engines[1].result, None);
    assert_eq!(engines[1].engine_update, None);
    assert_eq!(session.phase(), ScanPhase::Finished);
    assert_eq!(client.cached(), 1);
}

#[test]
fn file_without_a_name_is_recorded_as_unknown() {
    let mut client = unlimited_client();
    let mut file = sample_file();
    file.name = None;
    let (mut session, _) = client.scan_file(FileProbe::Found(file), 0);
    client.resume(&mut session, answered(UPLOADED), 1);
    let result = expect_done(client.resume(&mut session, answered(COMPLETED), 2)).unwrap();
    assert_eq!(result.file_name, "unknown file");
}

#[test]
fn second_scan_is_served_from_the_cache() {
    let mut client = unlimited_client();
    let mut session = start_polling(&mut client);
    let first = expect_done(client.resume(&mut session, answered(COMPLETED), 9_000)).unwrap();
    let calls = client.last_call();
    let (again, command) = client.scan_file(FileProbe::Found(sample_file()), 9_000 + 86_399_999);
    assert_eq!(command, ScanCommand::Done(Ok(first)));
    assert_eq!(again.phase(), ScanPhase::Finished);
    assert_eq!(client.last_call(), calls);
}

#[test]
fn expired_verdict_is_not_served() {
    let mut client = unlimited_client();
    let mut session = start_polling(&mut client);
    expect_done(client.resume(&mut session, answered(COMPLETED), 9_000)).unwrap();
    let (_, command) = client.scan_file(FileProbe::Found(sample_file()), 9_000 + 86_400_000);
    assert_eq!(
        command,
        ScanCommand::Upload("https://www.virustotal.com/api/v3/files".to_string())
    );
    assert_eq!(client.cached(), 0);
}

#[test]
fn failed_scan_stores_nothing() {
    let mut client = unlimited_client();
    let mut session = start_polling(&mut client);
    let outcome = expect_done(client.resume(
        &mut session,
        ScanEvent::Replied(HttpReply::Answered { status: 500, body: String::new() }),
        3_000,
    ));
    assert_eq!(outcome, Err(ScanError::AnalysisError(RemoteFailure::Status(500))));
    assert_eq!(client.cached(), 0);
}

#[test]
fn upload_failures() {
    let mut client = unlimited_client();
    let (mut session, _) = client.scan_file(FileProbe::Found(sample_file()), 0);
    let outcome = expect_done(client.resume(
        &mut session,
        ScanEvent::Replied(HttpReply::Failed("connection reset".to_string())),
        1,
    ));
    assert_eq!(
        outcome,
        Err(ScanError::UploadError(RemoteFailure::Transport("connection reset".to_string())))
    );

    let (mut session, _) = client.scan_file(FileProbe::Found(sample_file()), 2);
    let outcome = expect_done(client.resume(
        &mut session,
        ScanEvent::Replied(HttpReply::Answered { status: 401, body: UPLOADED.to_string() }),
        3,
    ));
    assert_eq!(outcome, Err(ScanError::UploadError(RemoteFailure::Status(401))));

    let (mut session, _) = client.scan_file(FileProbe::Found(sample_file()), 4);
    let outcome = expect_done(client.resume(
        &mut session,
        ScanEvent::FileUnreadable("Failed to read file: gone".to_string()),
        5,
    ));
    assert_eq!(outcome, Err(ScanError::IoError("Failed to read file: gone".to_string())));
}

#[test]
fn malformed_replies_are_protocol_errors() {
    let mut client = unlimited_client();
    let (mut session, _) = client.scan_file(FileProbe::Found(sample_file()), 0);
    let outcome = expect_done(client.resume(&mut session, answered("{not json"), 1));
    assert_eq!(outcome, Err(ScanError::ProtocolError(ProtocolFault::MalformedUpload)));

    let (mut session, _) = client.scan_file(FileProbe::Found(sample_file()), 2);
    let outcome = expect_done(client.resume(&mut session, answered(r#"{"data":{"id":7}}"#), 3));
    assert_eq!(outcome, Err(ScanError::ProtocolError(ProtocolFault::MissingAnalysisId)));

    let mut session = start_polling(&mut client);
    let outcome = expect_done(client.resume(&mut session, answered("[1, 2"), 1_600));
    assert_eq!(outcome, Err(ScanError::ProtocolError(ProtocolFault::MalformedAnalysis)));

    let mut client = unlimited_client();
    let mut session = start_polling(&mut client);
    let outcome = expect_done(client.resume(
        &mut session,
        answered(r#"{"data":{"attributes":{}}}"#),
        1_700,
    ));
    assert_eq!(outcome, Err(ScanError::ProtocolError(ProtocolFault::MissingStatus)));
}

#[test]
fn poll_transport_failure_is_analysis_error() {
    let mut client = unlimited_client();
    let mut session = start_polling(&mut client);
    let outcome = expect_done(client.resume(
        &mut session,
        ScanEvent::Replied(HttpReply::Failed("timed out".to_string())),
        6,
    ));
    assert_eq!(
        outcome,
        Err(ScanError::AnalysisError(RemoteFailure::Transport("timed out".to_string())))
    );
}

#[test]
fn analysis_times_out_after_thirty_polls() {
    let mut client = unlimited_client();
    let mut session = start_polling(&mut client);
    let mut now: u64 = 2_000;
    let mut polls = 1;
    loop {
        match client.resume(&mut session, answered(QUEUED), now) {
            ScanCommand::Wait(ms) => {
                assert_eq!(ms, 2_000);
                now += ms;
            }
            other => panic!("expected a pause, got {:?}", other),
        }
        match client.resume(&mut session, ScanEvent::Woke, now) {
            ScanCommand::Poll(_) => polls += 1,
            ScanCommand::Done(outcome) => {
                assert_eq!(outcome, Err(ScanError::Timeout));
                break;
            }
            other => panic!("unexpected command {:?}", other),
        }
    }
    assert_eq!(polls, 30);
    assert_eq!(session.polls(), 30);
}

#[test]
fn requests_wait_for_the_rate_limiter() {
    let mut client = VirusTotal::new("key".to_string());
    let (mut session, command) = client.scan_file(FileProbe::Found(sample_file()), 100_000);
    assert!(matches!(command, ScanCommand::Upload(_)));
    let command = client.resume(&mut session, answered(UPLOADED), 101_000);
    assert_eq!(command, ScanCommand::Wait(14_000));
    assert_eq!(session.phase(), ScanPhase::AwaitingPollSlot);
    let command = client.resume(&mut session, ScanEvent::Woke, 114_999);
    assert_eq!(command, ScanCommand::Wait(1));
    let command = client.resume(&mut session, ScanEvent::Woke, 115_000);
    assert!(matches!(command, ScanCommand::Poll(_)));
    assert_eq!(client.last_call(), Some(115_000));
    let command = client.resume(&mut session, answered(QUEUED), 115_500);
    assert_eq!(command, ScanCommand::Wait(2_000));
    let command = client.resume(&mut session, ScanEvent::Woke, 117_500);
    assert_eq!(command, ScanCommand::Wait(12_500));
}

#[test]
fn second_upload_waits_for_its_slot() {
    let mut client = VirusTotal::new("key".to_string());
    let (_, command) = client.scan_file(FileProbe::Found(sample_file()), 50_000);
    assert!(matches!(command, ScanCommand::Upload(_)));
    let mut other = sample_file();
    other.digest = "aa11".to_string();
    let (mut session, command) = client.scan_file(FileProbe::Found(other), 51_000);
    assert_eq!(command, ScanCommand::Wait(14_000));
    assert_eq!(session.phase(), ScanPhase::AwaitingUploadSlot);
    let command = client.resume(&mut session, ScanEvent::Woke, 65_000);
    assert!(matches!(command, ScanCommand::Upload(_)));
}

#[test]
fn unexpected_event_ends_the_scan() {
    let mut client = unlimited_client();
    let (mut session, _) = client.scan_file(FileProbe::Found(sample_file()), 0);
    let outcome = expect_done(client.resume(&mut session, ScanEvent::Woke, 1));
    assert_eq!(outcome, Err(ScanError::ProtocolError(ProtocolFault::UnexpectedEvent)));
    let outcome = expect_done(client.resume(&mut session, answered(UPLOADED), 2));
    assert_eq!(outcome, Err(ScanError::ProtocolError(ProtocolFault::UnexpectedEvent)));
}

#[test]
fn accept_functions_take_parsed_documents() {
    let mut client = unlimited_client();
    let (mut session, _) = client.scan_file(FileProbe::Found(sample_file()), 0);
    let upload = Json::Object(vec![(
        "data".to_string(),
        Json::Object(vec![("id".to_string(), Json::Text("xyz".to_string()))]),
    )]);
    let command = client.accept_upload(&mut session, Some(upload), 1);
    assert_eq!(
        command,
        ScanCommand::Poll("https://www.virustotal.com/api/v3/analyses/xyz".to_string())
    );
    assert_eq!(session.analysis_id(), "xyz");
    let analysis = Json::Object(vec![(
        "data".to_string(),
        Json::Object(vec![(
            "attributes".to_string(),
            Json::Object(vec![
                ("status".to_string(), Json::Text("completed".to_string())),
                (
                    "stats".to_string(),
                    Json::Object(vec![
                        ("malicious".to_string(), Json::Number(Some(0))),
                        ("suspicious".to_string(), Json::Number(Some(1))),
                        ("total".to_string(), Json::Number(Some(70))),
                    ]),
                ),
            ]),
        )]),
    )]);
    let result = expect_done(client.accept_analysis(&mut session, Some(analysis), 2)).unwrap();
    assert_eq!(result.status, ScanStatus::Suspicious);
    assert_eq!(result.detection_count, Some(1));
    assert_eq!(result.vendor_results, Some(Vec::new()));
    let outcome = expect_done(client.accept_analysis(&mut session, None, 3));
    assert_eq!(outcome, Err(ScanError::ProtocolError(ProtocolFault::UnexpectedEvent)));
}

#[test]
fn key_check_goes_through_the_rate_limiter() {
    let mut client = VirusTotal::new("secret".to_string());
    assert_eq!(client.api_key(), "secret");
    assert_eq!(
        client.test_api_key(20_000),
        KeyCheck::Ask("https://www.virustotal.com/api/v3/users/current".to_string())
    );
    assert_eq!(client.test_api_key(25_000), KeyCheck::Wait(10_000));
    client.set_api_key("other".to_string());
    assert_eq!(client.api_key(), "other");
}

#[test]
fn protocol_constants() {
    assert_eq!(virus_scanner::client::VT_API_URL, "https://www.virustotal.com/api/v3");
    assert_eq!(virus_scanner::client::API_KEY_HEADER, "x-apikey");
    assert_eq!(virus_scanner::client::UPLOAD_FIELD, "file");
    assert_eq!(virus_scanner::client::MAX_POLL_ATTEMPTS, 30);
    assert_eq!(virus_scanner::client::POLL_DELAY_MS, 2_000);
}

#[test]
fn key_verdict_follows_the_status() {
    let ok = HttpReply::Answered { status: 200, body: String::new() };
    let rejected = HttpReply::Answered { status: 401, body: String::new() };
    let lost = HttpReply::Failed("dns".to_string());
    assert_eq!(VirusTotal::key_verdict(&ok), Ok(true));
    assert_eq!(VirusTotal::key_verdict(&rejected), Ok(false));
    assert_eq!(VirusTotal::key_verdict(&lost), Err(RemoteFailure::Transport("dns".to_string())));
}
