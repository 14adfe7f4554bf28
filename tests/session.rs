use whoami_gateway::connection::{Connection, GatewayConfig, GatewayState, OpenDecision, Phase};
use whoami_gateway::monitor::{MonitorAction, ReadOutcome, SessionMonitor};

const SEC: u64 = 1000;

fn gateway(idle_secs: u64, max_secs: u64) -> GatewayState {
    GatewayState::new(GatewayConfig {
        port: 2222,
        max_sessions: 1,
        rate_limit_per_min: 30,
        idle_timeout_ms: idle_secs * SEC,
        max_session_ms: max_secs * SEC,
    })
}

fn active_session(gw: &mut GatewayState, channel: u32) -> (Connection, SessionMonitor) {
    let mut c = Connection::new(Some(1), 0);
    assert!(c.authenticate(gw, 0));
    assert_eq!(c.open_channel(), OpenDecision::Spawn);
    let m = c.spawn_finished(gw, channel, true).expect("monitor");
    (c, m)
}

#[test]
fn second_channel_open_spawns_nothing() {
    let mut gw = gateway(180, 900);
    let (mut c, _m) = active_session(&mut gw, 3);
    assert_eq!(c.phase(), Phase::Active);
    assert_eq!(c.open_channel(), OpenDecision::AlreadyOpen);
    assert!(c.spawn_finished(&mut gw, 4, true).is_none());
    assert_eq!(c.channel(), Some(3));
}

#[test]
fn channel_open_before_authentication_is_refused() {
    let c = Connection::new(Some(1), 0);
    assert_eq!(c.open_channel(), OpenDecision::Refuse);
}

#[test]
fn spawn_failure_returns_the_permit() {
    let mut gw = gateway(180, 900);
    let mut c = Connection::new(Some(1), 0);
    assert!(c.authenticate(&mut gw, 0));
    assert_eq!(gw.gate.active_sessions(), 1);
    assert!(c.spawn_finished(&mut gw, 0, false).is_none());
    assert_eq!(c.phase(), Phase::Rejected);
    assert_eq!(gw.gate.active_sessions(), 0);
    assert_eq!(c.open_channel(), OpenDecision::Refuse);
}

#[test]
fn inbound_only_on_bound_channel() {
    let mut gw = gateway(180, 900);
    let (mut c, _m) = active_session(&mut gw, 3);
    let data = [1u8, 2, 3];
    assert_eq!(c.inbound(3, &data, 50), Some(&data[..]));
    assert_eq!(c.last_activity(), 50);
    assert_eq!(c.inbound(4, &data, 60), None);
    assert_eq!(c.last_activity(), 50);
}

#[test]
fn inbound_chunks_keep_their_order() {
    let mut gw = gateway(180, 900);
    let (mut c, _m) = active_session(&mut gw, 1);
    let chunks: [&[u8]; 3] = [b"ab", b"", b"cde"];
    let mut stdin = Vec::new();
    for (i, chunk) in chunks.iter().enumerate() {
        if let Some(d) = c.inbound(1, chunk, i as u64) {
            stdin.extend_from_slice(d);
        }
    }
    assert_eq!(stdin, b"abcde".to_vec());
}

#[test]
fn idle_session_ends_once_and_frees_its_slot() {
    let mut gw = gateway(1, 900);
    let (mut c, mut m) = active_session(&mut gw, 0);
    let last = c.last_activity();
    assert_eq!(m.check_timers(last, 500), MonitorAction::Read);
    assert_eq!(m.after_read(ReadOutcome::Nothing), MonitorAction::Read);
    assert_eq!(m.check_timers(last, 2 * SEC), MonitorAction::EndSession);
    let mut ends = 1;
    for now in [2 * SEC + 1, 3 * SEC] {
        if m.check_timers(last, now) == MonitorAction::EndSession {
            ends += 1;
        }
    }
    assert_eq!(m.after_read(ReadOutcome::Closed), MonitorAction::Stop);
    assert_eq!(ends, 1);
    assert!(c.close(&mut gw));
    assert_eq!(gw.gate.active_sessions(), 0);
    let mut next = Connection::new(Some(2), 3 * SEC);
    assert!(next.authenticate(&mut gw, 3 * SEC));
}

#[test]
fn busy_session_ends_at_its_duration_limit() {
    let mut gw = gateway(180, 10);
    let (mut c, mut m) = active_session(&mut gw, 0);
    let data = [0u8];
    assert!(c.inbound(0, &data, 10 * SEC).is_some());
    assert_eq!(m.check_timers(c.last_activity(), 10 * SEC), MonitorAction::Read);
    assert!(c.inbound(0, &data, 10 * SEC + 1).is_some());
    assert_eq!(m.check_timers(c.last_activity(), 10 * SEC + 1), MonitorAction::EndSession);
    assert!(c.close(&mut gw));
    assert_eq!(gw.gate.active_sessions(), 0);
}

#[test]
fn relay_stop_paths() {
    let mut m = SessionMonitor::new(0, 1000, 1000);
    assert_eq!(m.after_read(ReadOutcome::Data(5)), MonitorAction::Forward(5));
    assert_eq!(m.after_send(true), MonitorAction::Read);
    assert_eq!(m.after_read(ReadOutcome::Failed), MonitorAction::EndSession);
    assert_eq!(m.after_send(true), MonitorAction::Stop);

    let mut child_exit = SessionMonitor::new(0, 1000, 1000);
    assert_eq!(child_exit.after_read(ReadOutcome::Closed), MonitorAction::EndSession);
    assert!(child_exit.finished);

    let mut peer_gone = SessionMonitor::new(0, 1000, 1000);
    assert_eq!(peer_gone.after_send(false), MonitorAction::Stop);
    assert_eq!(peer_gone.check_timers(0, 5000), MonitorAction::Stop);
}

#[test]
fn expiry_is_strictly_after_the_limit() {
    let m = SessionMonitor::new(100, 1000, 5000);
    assert!(!m.is_expired(100, 1100));
    assert!(m.is_expired(100, 1101));
    assert!(!m.is_expired(5000, 5100));
    assert!(m.is_expired(5000, 5101));
    assert!(!m.is_expired(200, 50));
}

#[test]
fn closing_twice_frees_one_slot() {
    let mut gw = gateway(180, 900);
    let (mut c, _m) = active_session(&mut gw, 0);
    assert!(c.close(&mut gw));
    assert!(!c.close(&mut gw));
    assert_eq!(c.phase(), Phase::Closed);
    assert_eq!(c.channel(), None);
}

#[test]
fn started_at_is_the_connection_time() {
    let mut gw = gateway(180, 900);
    let mut c = Connection::new(None, 1234);
    assert_eq!(c.started_at(), 1234);
    assert!(c.authenticate(&mut gw, 2000));
    let m = c.spawn_finished(&mut gw, 0, true).unwrap();
    assert_eq!(m.started_at, 1234);
    assert_eq!(m.idle_timeout, 180 * SEC);
    assert_eq!(m.max_duration, 900 * SEC);
}
