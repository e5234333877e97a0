use proxy_core::limit::{ConcurrentPolicy, ExponentialBackoff};

#[test]
fn admission_stops_at_the_bound() {
    let mut policy = ConcurrentPolicy::max_conns(2);
    assert!(policy.try_acquire());
    assert!(policy.try_acquire());
    assert!(!policy.try_acquire(), "the bound is full");
    policy.release();
    assert!(policy.try_acquire(), "a release frees one slot");
}

#[test]
fn zero_bound_admits_nothing() {
    let mut policy = ConcurrentPolicy::max_conns(0);
    assert!(!policy.try_acquire());
    assert!(!policy.try_acquire());
}

#[test]
fn backoff_doubles_to_the_cap_and_resets() {
    let mut backoff = ExponentialBackoff::new(100, 750);
    assert_eq!(backoff.next_delay(), 100);
    assert_eq!(backoff.next_delay(), 200);
    assert_eq!(backoff.next_delay(), 400);
    assert_eq!(backoff.next_delay(), 750, "saturated at the cap");
    assert_eq!(backoff.next_delay(), 750);
    backoff.reset();
    assert_eq!(backoff.next_delay(), 100);
}
