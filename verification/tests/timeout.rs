use std::time::Duration;
use zzrpc::timeout::Timeout;

#[test]
fn timeout_with_duration_terminates_when_elapsed() {
    let mut timeout = Timeout::new(Duration::from_millis(250));
    assert!(!timeout.is_terminated());
    assert!(!timeout.poll(false));
    assert!(!timeout.is_terminated());
    assert!(timeout.poll(true));
    assert!(timeout.is_terminated());
}

#[test]
fn timeout_reset_keeps_duration_and_restarts() {
    let mut timeout = Timeout::new(Duration::from_secs(3));
    assert_eq!(timeout.reset(), Some(Duration::from_secs(3)));
    timeout.poll(true);
    assert!(timeout.is_terminated());
    assert_eq!(timeout.reset(), Some(Duration::from_secs(3)));
    assert!(!timeout.is_terminated());
    assert!(timeout.poll(true));
    assert!(timeout.is_terminated());
}

#[test]
fn timeout_never_occurs() {
    let mut timeout = Timeout::never();
    assert!(!timeout.poll(true));
    assert!(!timeout.is_terminated());
    assert_eq!(timeout.reset(), None);
}
