use whoami_gateway::config::{parse_env_u16, parse_env_u64, parse_env_usize, secs_as_ms};
use whoami_gateway::connection::GatewayConfig;

#[test]
fn settings_fall_back_to_defaults() {
    assert_eq!(parse_env_u16(None, 2222), 2222);
    assert_eq!(parse_env_u16(Some("2200"), 2222), 2200);
    assert_eq!(parse_env_u16(Some("+80"), 2222), 80);
    assert_eq!(parse_env_u16(Some("70000"), 2222), 2222);
    assert_eq!(parse_env_u16(Some(""), 2222), 2222);
    assert_eq!(parse_env_u16(Some(" 80"), 2222), 2222);
    assert_eq!(parse_env_u16(Some("-1"), 2222), 2222);
    assert_eq!(parse_env_usize(Some("12"), 40), 12);
    assert_eq!(parse_env_usize(Some("twelve"), 40), 40);
    assert_eq!(parse_env_u64(Some("18446744073709551615"), 1), u64::MAX);
    assert_eq!(parse_env_u64(Some("18446744073709551616"), 1), 1);
}

#[test]
fn configuration_from_settings() {
    let c = GatewayConfig::from_settings(None, None, None, None, None);
    assert_eq!(c.port, 2222);
    assert_eq!(c.max_sessions, 40);
    assert_eq!(c.rate_limit_per_min, 30);
    assert_eq!(c.idle_timeout_ms, 180_000);
    assert_eq!(c.max_session_ms, 900_000);
    let c = GatewayConfig::from_settings(Some("22"), Some("2"), Some("5"), Some("1"), Some("60"));
    assert_eq!(c.port, 22);
    assert_eq!(c.max_sessions, 2);
    assert_eq!(c.rate_limit_per_min, 5);
    assert_eq!(c.idle_timeout_ms, 1000);
    assert_eq!(c.max_session_ms, 60_000);
}

#[test]
fn seconds_saturate_as_milliseconds() {
    assert_eq!(secs_as_ms(3), 3000);
    assert_eq!(secs_as_ms(u64::MAX), u64::MAX);
    assert_eq!(secs_as_ms(u64::MAX / 1000), (u64::MAX / 1000) * 1000);
}
