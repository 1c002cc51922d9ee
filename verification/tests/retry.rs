use virus_scanner::errors::{AuthFailure, ProtocolFault, RemoteFailure, ScanError};
use virus_scanner::retry::{Backoff, RetryDecision, RetryPolicy, RetryState};

fn fixed(max_retries: u32) -> RetryPolicy {
    RetryPolicy { max_retries, backoff: Backoff::Fixed(60_000) }
}

#[test]
fn retries_exactly_as_often_as_allowed() {
    let mut state = RetryState::new(fixed(3));
    let mut retries = 0;
    let last = loop {
        match state.on_failure(ScanError::Timeout) {
            RetryDecision::RetryAfter(ms) => {
                assert_eq!(ms, 60_000);
                retries += 1;
            }
            RetryDecision::GiveUp(error) => break error,
        }
    };
    assert_eq!(retries, 3);
    assert_eq!(state.retries(), 3);
    assert_eq!(last, ScanError::MaxRetriesExceeded(Box::new(ScanError::Timeout)));
}

#[test]
fn exhausted_budget_wraps_the_last_error() {
    let mut state = RetryState::new(fixed(1));
    assert_eq!(
        state.on_failure(ScanError::UploadError(RemoteFailure::Status(503))),
        RetryDecision::RetryAfter(60_000)
    );
    assert_eq!(
        state.on_failure(ScanError::ProtocolError(ProtocolFault::MissingStatus)),
        RetryDecision::GiveUp(ScanError::MaxRetriesExceeded(Box::new(
            ScanError::ProtocolError(ProtocolFault::MissingStatus)
        )))
    );
}

#[test]
fn early_success_leaves_retries_unused() {
    let mut state = RetryState::new(fixed(3));
    assert!(matches!(state.on_failure(ScanError::Timeout), RetryDecision::RetryAfter(_)));
    assert_eq!(state.retries(), 1);
    assert_eq!(state.policy(), fixed(3));
}

#[test]
fn final_errors_are_not_retried() {
    let mut state = RetryState::new(fixed(3));
    assert_eq!(state.on_failure(ScanError::NotFound), RetryDecision::GiveUp(ScanError::NotFound));
    assert_eq!(
        state.on_failure(ScanError::IoError("denied".to_string())),
        RetryDecision::GiveUp(ScanError::IoError("denied".to_string()))
    );
    assert_eq!(
        state.on_failure(ScanError::AuthError(AuthFailure::KeyRejected)),
        RetryDecision::GiveUp(ScanError::AuthError(AuthFailure::KeyRejected))
    );
    assert_eq!(state.retries(), 0);
}

#[test]
fn zero_retries_gives_up_at_once() {
    let mut state = RetryState::new(fixed(0));
    assert_eq!(
        state.on_failure(ScanError::Timeout),
        RetryDecision::GiveUp(ScanError::MaxRetriesExceeded(Box::new(ScanError::Timeout)))
    );
}

#[test]
fn exponential_backoff_doubles() {
    let policy = RetryPolicy { max_retries: 70, backoff: Backoff::Exponential };
    assert_eq!(policy.delay(1), 2_000);
    assert_eq!(policy.delay(2), 4_000);
    assert_eq!(policy.delay(3), 8_000);
    assert_eq!(policy.delay(0), 1_000);
    assert_eq!(policy.delay(54), 18_014_398_509_481_984_000);
    assert_eq!(policy.delay(55), u64::MAX);
    assert_eq!(policy.delay(u32::MAX.min(200)), u64::MAX);
    let mut state = RetryState::new(policy);
    assert_eq!(state.on_failure(ScanError::Timeout), RetryDecision::RetryAfter(2_000));
    assert_eq!(state.on_failure(ScanError::Timeout), RetryDecision::RetryAfter(4_000));
}

#[test]
fn fixed_backoff_is_the_same_for_every_retry() {
    let policy = fixed(5);
    assert_eq!(policy.delay(1), 60_000);
    assert_eq!(policy.delay(5), 60_000);
}
