use whoami_gateway::connection::{Connection, GatewayConfig, GatewayState, Phase};
use whoami_gateway::gate::AdmissionGate;
use whoami_gateway::rate_limit::RateLimiter;

const SEC: u64 = 1000;

fn config(max_sessions: usize, rate: usize) -> GatewayConfig {
    GatewayConfig {
        port: 2222,
        max_sessions,
        rate_limit_per_min: rate,
        idle_timeout_ms: 180 * SEC,
        max_session_ms: 900 * SEC,
    }
}

#[test]
fn two_per_window_then_reset() {
    let mut limiter = RateLimiter::new(2);
    let a = Some(0x7f00_0001u128);
    assert!(limiter.allow(a, 0));
    assert!(limiter.allow(a, 10 * SEC));
    assert!(!limiter.allow(a, 20 * SEC));
    assert!(limiter.allow(a, 65 * SEC));
}

#[test]
fn rejected_attempt_is_not_recorded() {
    let mut limiter = RateLimiter::new(1);
    let a = Some(42u128);
    assert!(limiter.allow(a, 5 * SEC));
    assert!(!limiter.allow(a, 6 * SEC));
    assert_eq!(limiter.recorded(42), 1);
    // the admitted attempt leaves the window at 65s; the rejected one never counted
    assert!(limiter.allow(a, 65 * SEC + 1));
}

#[test]
fn attempt_exactly_at_cutoff_still_counts() {
    let mut limiter = RateLimiter::new(1);
    let a = Some(9u128);
    assert!(limiter.allow(a, 10 * SEC));
    assert!(!limiter.allow(a, 70 * SEC));
    assert!(limiter.allow(a, 70 * SEC + 1));
}

#[test]
fn addresses_are_limited_separately() {
    let mut limiter = RateLimiter::new(1);
    assert!(limiter.allow(Some(1), 0));
    assert!(limiter.allow(Some(2), 0));
    assert!(!limiter.allow(Some(1), 1));
    assert_eq!(limiter.recorded(2), 1);
    assert_eq!(limiter.recorded(3), 0);
}

#[test]
fn unknown_source_is_always_allowed() {
    let mut limiter = RateLimiter::new(0);
    for t in 0..5u64 {
        assert!(limiter.allow(None, t));
    }
    assert!(!limiter.allow(Some(1), 0));
    assert_eq!(limiter.threshold(), 0);
}

#[test]
fn gate_caps_and_frees() {
    let mut gate = AdmissionGate::new(2);
    assert_eq!(gate.max_sessions(), 2);
    let p1 = gate.try_acquire().expect("first slot");
    let p2 = gate.try_acquire().expect("second slot");
    assert!(gate.try_acquire().is_none());
    assert_eq!(gate.active_sessions(), 2);
    assert!(gate.release(p1));
    assert_eq!(gate.active_sessions(), 1);
    let p3 = gate.try_acquire().expect("freed slot");
    assert!(gate.try_acquire().is_none());
    assert!(gate.release(p2));
    assert!(gate.release(p3));
    assert_eq!(gate.active_sessions(), 0);
}

#[test]
fn gate_of_zero_admits_nobody() {
    let mut gate = AdmissionGate::new(0);
    assert!(gate.try_acquire().is_none());
}

#[test]
fn permit_of_another_gate_is_refused() {
    let mut big = AdmissionGate::new(3);
    let mut small = AdmissionGate::new(1);
    let _a = big.try_acquire().unwrap();
    let _b = big.try_acquire().unwrap();
    let c = big.try_acquire().unwrap();
    assert!(!small.release(c));
    assert_eq!(small.active_sessions(), 0);
}

#[test]
fn single_slot_retry_after_teardown() {
    let mut gw = GatewayState::new(config(1, 30));
    let mut s1 = Connection::new(Some(1), 0);
    let mut s2 = Connection::new(Some(2), 0);
    assert!(s1.authenticate(&mut gw, 0));
    assert_eq!(s1.phase(), Phase::Authenticated);
    assert!(!s2.authenticate(&mut gw, 1));
    assert_eq!(s2.phase(), Phase::Rejected);
    assert!(s1.close(&mut gw));
    assert_eq!(s1.phase(), Phase::Closed);
    let mut retry = Connection::new(Some(2), 2);
    assert!(retry.authenticate(&mut gw, 2));
    assert_eq!(gw.gate.active_sessions(), 1);
}

#[test]
fn rate_limited_connection_takes_no_slot() {
    let mut gw = GatewayState::new(config(5, 1));
    let mut first = Connection::new(Some(7), 0);
    assert!(first.authenticate(&mut gw, 0));
    let mut second = Connection::new(Some(7), 1);
    assert!(!second.authenticate(&mut gw, 1));
    assert_eq!(second.phase(), Phase::Rejected);
    assert_eq!(gw.gate.active_sessions(), 1);
}

#[test]
fn repeated_authentication_takes_no_second_slot() {
    let mut gw = GatewayState::new(config(5, 30));
    let mut c = Connection::new(None, 0);
    assert!(c.authenticate(&mut gw, 0));
    assert!(c.authenticate(&mut gw, 1));
    assert_eq!(gw.gate.active_sessions(), 1);
    let mut rejected = Connection::new(None, 0);
    let mut full = GatewayState::new(config(0, 30));
    assert!(!rejected.authenticate(&mut full, 0));
    assert!(!rejected.authenticate(&mut full, 1));
}
