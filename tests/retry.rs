use dogstatsd::{Retry, RetryAction, SendOutcome, TransportKind};

const FAILED: SendOutcome = SendOutcome::Failed { not_connected: false };

#[test]
fn failing_transport_gets_bounded_retries_and_waits() {
    let mut retry = Retry::new(3, 100, TransportKind::Udp);
    let mut attempts = 1;
    let mut waited: u64 = 0;
    let mut delays = Vec::new();
    let jitters = [u64::MAX, 0, 12345, 7];
    let mut k = 0;
    loop {
        match retry.after_attempt(FAILED, jitters[k % jitters.len()]) {
            RetryAction::RetryAfter { delay_ms, reconnect } => {
                assert!(!reconnect);
                delays.push(delay_ms);
                waited += delay_ms;
                attempts += 1;
            }
            RetryAction::GiveUp => break,
            RetryAction::Done => panic!("nothing was sent"),
        }
        k += 1;
    }
    assert_eq!(attempts, 3);
    assert_eq!(delays.len(), 2);
    assert!(waited <= 100 + 200);
    assert!(delays[0] >= 50 && delays[0] <= 100);
    assert!(delays[1] >= 100 && delays[1] <= 200);
}

#[test]
fn jitter_picks_within_half_to_full_backoff() {
    let mut retry = Retry::new(2, 100, TransportKind::Udp);
    assert_eq!(
        retry.after_attempt(FAILED, 0),
        RetryAction::RetryAfter { delay_ms: 50, reconnect: false }
    );
    let mut retry = Retry::new(2, 100, TransportKind::Udp);
    assert_eq!(
        retry.after_attempt(FAILED, 50),
        RetryAction::RetryAfter { delay_ms: 100, reconnect: false }
    );
    let mut retry = Retry::new(2, 100, TransportKind::Udp);
    assert_eq!(
        retry.after_attempt(FAILED, 51),
        RetryAction::RetryAfter { delay_ms: 50, reconnect: false }
    );
}

#[test]
fn a_limit_of_one_or_zero_means_one_attempt() {
    let mut retry = Retry::new(0, 25, TransportKind::Uds);
    assert_eq!(retry.after_attempt(FAILED, 3), RetryAction::GiveUp);
    let mut retry = Retry::new(1, 25, TransportKind::Udp);
    assert_eq!(retry.after_attempt(FAILED, 3), RetryAction::GiveUp);
}

#[test]
fn a_limit_of_two_allows_one_retry() {
    let mut retry = Retry::new(2, 40, TransportKind::Udp);
    assert_eq!(
        retry.after_attempt(FAILED, 0),
        RetryAction::RetryAfter { delay_ms: 20, reconnect: false }
    );
    assert_eq!(retry.after_attempt(FAILED, 0), RetryAction::GiveUp);
}

#[test]
fn success_ends_the_retries() {
    let mut retry = Retry::new(5, 25, TransportKind::Udp);
    assert!(matches!(retry.after_attempt(FAILED, 0), RetryAction::RetryAfter { .. }));
    assert_eq!(retry.after_attempt(SendOutcome::Sent, 0), RetryAction::Done);
}

#[test]
fn unix_sockets_always_reconnect_and_udp_only_when_not_connected() {
    let mut uds = Retry::new(2, 10, TransportKind::Uds);
    assert_eq!(
        uds.after_attempt(FAILED, 0),
        RetryAction::RetryAfter { delay_ms: 5, reconnect: true }
    );
    let mut udp = Retry::new(3, 10, TransportKind::Udp);
    assert_eq!(
        udp.after_attempt(SendOutcome::Failed { not_connected: true }, 0),
        RetryAction::RetryAfter { delay_ms: 5, reconnect: true }
    );
    assert_eq!(
        udp.after_attempt(FAILED, 0),
        RetryAction::RetryAfter { delay_ms: 10, reconnect: false }
    );
    assert_eq!(udp.after_attempt(FAILED, 0), RetryAction::GiveUp);
}

#[test]
fn backoff_saturates_instead_of_overflowing() {
    let mut retry = Retry::new(5, u64::MAX / 2 + 1, TransportKind::Udp);
    for _ in 0..4 {
        match retry.after_attempt(FAILED, u64::MAX) {
            RetryAction::RetryAfter { .. } => {}
            other => panic!("unexpected {:?}", other),
        }
    }
    assert_eq!(retry.after_attempt(FAILED, 0), RetryAction::GiveUp);
}
