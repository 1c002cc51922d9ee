use virus_scanner::background_scanner::{
    needs_rescan, partition, plan_cycle, record_outcome, select_candidates, BackgroundScanner,
    JobCommand, JobEvent, JobPhase, ScanJob, CYCLE_INTERVAL_SECONDS, SETTINGS_RETRY_SECONDS,
};
use virus_scanner::config::ScannerConfig;
use virus_scanner::errors::{ProtocolFault, RemoteFailure, ScanError};
use virus_scanner::history::ScanHistory;
use virus_scanner::limiter::ConcurrencyLimiter;
use virus_scanner::retry::{Backoff, RetryPolicy};
use virus_scanner::settings::Settings;
use virus_scanner::virus_total::{ScanResult, ScanStatus};

const HOUR_MS: u64 = 3_600_000;

fn record(path: &str, date: u64) -> ScanResult {
    ScanResult {
        file_path: path.to_string(),
        file_name: "f".to_string(),
        file_size: 1,
        file_hash: "00".to_string(),
        scan_date: date,
        status: ScanStatus::Clean,
        detection_count: Some(0),
        total_engines: Some(1),
        permalink: None,
        vendor_results: None,
    }
}

fn names(list: &[&str]) -> Vec<String> {
    list.iter().map(|s| s.to_string()).collect()
}

#[test]
fn never_scanned_file_needs_rescan() {
    assert!(needs_rescan(None, 0, 24));
    assert!(needs_rescan(None, u64::MAX, u64::MAX));
}

#[test]
fn file_scanned_an_hour_ago_is_not_due() {
    let now = 100 * HOUR_MS;
    assert!(!needs_rescan(Some(now - HOUR_MS), now, 24));
}

#[test]
fn rescan_is_due_after_the_interval() {
    let now = 100 * HOUR_MS;
    assert!(!needs_rescan(Some(now - 24 * HOUR_MS), now, 24));
    assert!(!needs_rescan(Some(now - 24 * HOUR_MS - 999), now, 24));
    assert!(needs_rescan(Some(now - 24 * HOUR_MS - 1_000), now, 24));
    assert!(needs_rescan(Some(0), 1_000, 0));
    assert!(!needs_rescan(Some(0), 999, 0));
    assert!(!needs_rescan(Some(500), 100, 0));
    assert!(!needs_rescan(Some(0), u64::MAX, u64::MAX));
}

#[test]
fn candidates_are_the_due_files_in_order() {
    let now = 100 * HOUR_MS;
    let mut history = ScanHistory::new(10);
    history.push(record("fresh", now - HOUR_MS));
    history.push(record("stale", now - 30 * HOUR_MS));
    history.push(record("both", now - 40 * HOUR_MS));
    history.push(record("both", now - 2 * HOUR_MS));
    let watched = names(&["new", "fresh", "stale", "both", "other"]);
    assert_eq!(
        select_candidates(&watched, &history, now, 24),
        names(&["new", "stale", "other"])
    );
}

#[test]
fn partition_cuts_fixed_batches() {
    let files = names(&["a", "b", "c", "d", "e"]);
    assert_eq!(
        partition(&files, 2),
        vec![names(&["a", "b"]), names(&["c", "d"]), names(&["e"])]
    );
    assert_eq!(partition(&files, 5), vec![files.clone()]);
    assert_eq!(partition(&files, 9), vec![files.clone()]);
    assert_eq!(partition(&files, 1).len(), 5);
    assert!(partition(&Vec::new(), 3).is_empty());
}

#[test]
fn cycle_without_settings_sleeps_briefly() {
    let config = ScannerConfig::default();
    let history = ScanHistory::new(10);
    let plan = plan_cycle(false, &config, &names(&["a"]), &history, 0);
    assert!(plan.batches.is_empty());
    assert_eq!(plan.sleep_seconds, SETTINGS_RETRY_SECONDS);
    assert_eq!(plan.sleep_seconds, 60);
}

#[test]
fn cycle_with_rescans_disabled_scans_nothing() {
    let history = ScanHistory::new(10);
    let mut settings = Settings::default();
    settings.auto_rescan_interval = None;
    let config = ScannerConfig::default().with_settings(&settings);
    let plan = plan_cycle(true, &config, &names(&["a"]), &history, 0);
    assert!(plan.batches.is_empty());
    assert_eq!(plan.sleep_seconds, CYCLE_INTERVAL_SECONDS);
    assert_eq!(plan.sleep_seconds, 3600);
}

#[test]
fn cycle_batches_the_due_files() {
    let now = 100 * HOUR_MS;
    let mut config = ScannerConfig::default();
    config.scan_batch_size = 2;
    let mut history = ScanHistory::new(10);
    history.push(record("b", now - HOUR_MS));
    let watched = names(&["a", "b", "c", "d"]);
    let plan = plan_cycle(true, &config, &watched, &history, now);
    assert_eq!(plan.batches, vec![names(&["a", "c"]), names(&["d"])]);
    assert_eq!(plan.sleep_seconds, 3600);
    let mut scanner = BackgroundScanner::new(config);
    assert_eq!(scanner.start(Some(&Settings::default()), &watched, &history, now), plan);
    let idle = scanner.start(None, &watched, &history, now);
    assert!(idle.batches.is_empty());
    assert_eq!(idle.sleep_seconds, 60);
}

#[test]
fn success_is_recorded_and_failure_reported() {
    let mut history = ScanHistory::new(5);
    assert_eq!(record_outcome(&mut history, 2, "a", Ok(record("a", 1))), None);
    assert_eq!(record_outcome(&mut history, 2, "b", Ok(record("b", 2))), None);
    let notice = record_outcome(
        &mut history,
        2,
        "c",
        Err(ScanError::MaxRetriesExceeded(Box::new(ScanError::UploadError(
            RemoteFailure::Status(429),
        )))),
    );
    assert_eq!(
        notice.as_deref(),
        Some("Failed to scan file c: Max retry attempts exceeded: Upload failed: 429")
    );
    assert_eq!(history.len(), 2);
    assert_eq!(record_outcome(&mut history, 2, "d", Ok(record("d", 3))), None);
    let kept: Vec<String> = history.to_vec().into_iter().map(|r| r.file_path).collect();
    assert_eq!(kept, names(&["b", "d"]));
    assert_eq!(history.limit(), 2);
}

#[test]
fn job_releases_its_permit_before_the_delay() {
    let mut limiter = ConcurrencyLimiter::new(1);
    let policy = RetryPolicy { max_retries: 1, backoff: Backoff::Fixed(60_000) };
    let mut job = ScanJob::new(policy);
    assert_eq!(job.phase(), JobPhase::NeedsPermit);
    assert_eq!(job.step(&mut limiter, JobEvent::PermitPossible), JobCommand::Attempt);
    assert_eq!(limiter.held(), 1);
    let mut other = ScanJob::new(policy);
    assert_eq!(other.step(&mut limiter, JobEvent::PermitPossible), JobCommand::AwaitPermit);
    assert_eq!(
        job.step(&mut limiter, JobEvent::AttemptEnded(Err(ScanError::Timeout))),
        JobCommand::Sleep(60_000)
    );
    assert_eq!(limiter.held(), 0);
    assert_eq!(job.phase(), JobPhase::Delayed);
    assert_eq!(other.step(&mut limiter, JobEvent::PermitPossible), JobCommand::Attempt);
    assert_eq!(job.step(&mut limiter, JobEvent::Woke), JobCommand::AwaitPermit);
    assert_eq!(
        other.step(&mut limiter, JobEvent::AttemptEnded(Ok(record("x", 1)))),
        JobCommand::Done(Ok(record("x", 1)))
    );
    assert_eq!(job.step(&mut limiter, JobEvent::PermitPossible), JobCommand::Attempt);
    assert_eq!(
        job.step(&mut limiter, JobEvent::AttemptEnded(Err(ScanError::Timeout))),
        JobCommand::Done(Err(ScanError::MaxRetriesExceeded(Box::new(ScanError::Timeout))))
    );
    assert_eq!(job.retries(), 1);
    assert_eq!(job.phase(), JobPhase::Finished);
    assert_eq!(limiter.held(), 0);
}

#[test]
fn job_stops_at_once_on_a_final_error() {
    let mut limiter = ConcurrencyLimiter::new(2);
    let mut job = ScanJob::new(RetryPolicy { max_retries: 3, backoff: Backoff::Fixed(1) });
    job.step(&mut limiter, JobEvent::PermitPossible);
    assert_eq!(
        job.step(&mut limiter, JobEvent::AttemptEnded(Err(ScanError::NotFound))),
        JobCommand::Done(Err(ScanError::NotFound))
    );
    assert_eq!(limiter.held(), 0);
}

#[test]
fn job_out_of_order_gives_its_permit_back() {
    let mut limiter = ConcurrencyLimiter::new(2);
    let mut job = ScanJob::new(RetryPolicy { max_retries: 3, backoff: Backoff::Fixed(1) });
    job.step(&mut limiter, JobEvent::PermitPossible);
    assert_eq!(limiter.held(), 1);
    assert_eq!(
        job.step(&mut limiter, JobEvent::Woke),
        JobCommand::Done(Err(ScanError::ProtocolError(ProtocolFault::UnexpectedEvent)))
    );
    assert_eq!(limiter.held(), 0);
    assert_eq!(job.phase(), JobPhase::Finished);
}

#[test]
fn scanner_queue_holds_no_path_twice() {
    let mut config = ScannerConfig::default();
    config.scan_batch_size = 2;
    let mut scanner = BackgroundScanner::new(config);
    scanner.add_to_queue("a".to_string());
    scanner.add_to_queue("b".to_string());
    scanner.add_to_queue("a".to_string());
    scanner.add_to_queue("c".to_string());
    assert_eq!(scanner.queued(), 3);
    assert_eq!(scanner.next_batch(), names(&["a", "b"]));
    assert_eq!(scanner.queued(), 1);
    assert_eq!(scanner.next_batch(), names(&["c"]));
    assert!(scanner.next_batch().is_empty());
}

#[test]
fn scanner_starts_once() {
    let mut scanner = BackgroundScanner::new(ScannerConfig::default());
    assert!(!scanner.is_scanning());
    assert!(scanner.start_scanning());
    assert!(!scanner.start_scanning());
    assert!(scanner.is_scanning());
    scanner.stop_scanning();
    assert!(!scanner.is_scanning());
    let mut config = ScannerConfig::default();
    config.retry_attempts = 9;
    scanner.set_config(config.clone());
    assert_eq!(scanner.config(), &config);
}

#[test]
fn scanner_jobs_share_its_permits() {
    let mut config = ScannerConfig::default();
    config.max_concurrent_scans = 1;
    config.retry_attempts = 0;
    let mut scanner = BackgroundScanner::new(config);
    let mut first = scanner.new_job();
    let mut second = scanner.new_job();
    assert_eq!(scanner.step_job(&mut first, JobEvent::PermitPossible), JobCommand::Attempt);
    assert_eq!(scanner.step_job(&mut second, JobEvent::PermitPossible), JobCommand::AwaitPermit);
    assert_eq!(
        scanner.step_job(&mut first, JobEvent::AttemptEnded(Err(ScanError::Timeout))),
        JobCommand::Done(Err(ScanError::MaxRetriesExceeded(Box::new(ScanError::Timeout))))
    );
    assert_eq!(scanner.step_job(&mut second, JobEvent::PermitPossible), JobCommand::Attempt);
}

#[test]
fn cycle_takes_the_user_options_into_the_configuration() {
    let mut config = ScannerConfig::default();
    config.auto_rescan_interval_hours = None;
    let mut scanner = BackgroundScanner::new(config);
    let mut settings = Settings::default();
    settings.auto_rescan_interval = Some(1);
    settings.scan_history_limit = 12;
    let history = ScanHistory::new(10);
    let plan = scanner.start(Some(&settings), &names(&["a"]), &history, 0);
    assert_eq!(plan.batches, vec![names(&["a"])]);
    assert_eq!(scanner.config().auto_rescan_interval_hours, Some(1));
    assert_eq!(scanner.config().scan_history_limit, 12);
    settings.auto_rescan_interval = None;
    let plan = scanner.start(Some(&settings), &names(&["a"]), &history, 0);
    assert!(plan.batches.is_empty());
    assert_eq!(scanner.config().auto_rescan_interval_hours, None);
}
