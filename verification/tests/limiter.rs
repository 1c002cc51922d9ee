use virus_scanner::limiter::ConcurrencyLimiter;

#[test]
fn permits_are_bounded() {
    let mut limiter = ConcurrencyLimiter::new(2);
    assert_eq!(limiter.permits(), 2);
    assert_eq!(limiter.held(), 0);
    assert!(limiter.try_acquire());
    assert!(limiter.try_acquire());
    assert!(!limiter.try_acquire());
    assert_eq!(limiter.held(), 2);
    limiter.release();
    assert_eq!(limiter.held(), 1);
    assert!(limiter.try_acquire());
    assert!(!limiter.try_acquire());
}

#[test]
fn release_without_permit_changes_nothing() {
    let mut limiter = ConcurrencyLimiter::new(1);
    limiter.release();
    assert_eq!(limiter.held(), 0);
    assert!(limiter.try_acquire());
    assert!(!limiter.try_acquire());
}

#[test]
fn limiter_without_permits_grants_none() {
    let mut limiter = ConcurrencyLimiter::new(0);
    assert!(!limiter.try_acquire());
    assert_eq!(limiter.held(), 0);
}

#[test]
fn mock_attempts_never_exceed_the_limit() {
    let mut limiter = ConcurrencyLimiter::new(3);
    let mut running: Vec<u32> = Vec::new();
    let mut waiting: Vec<u32> = (0..10).collect();
    let mut finished = 0;
    let mut most = 0;
    let mut tick = 0;
    while finished < 10 {
        while let Some(id) = waiting.first().copied() {
            if limiter.try_acquire() {
                waiting.remove(0);
                running.push(id);
            } else {
                break;
            }
        }
        assert!(limiter.held() <= 3);
        assert_eq!(limiter.held(), running.len());
        most = most.max(running.len());
        tick += 1;
        if tick % 2 == 0 {
            running.remove(0);
            limiter.release();
            finished += 1;
        }
    }
    assert_eq!(most, 3);
    assert_eq!(limiter.held(), 0);
}
