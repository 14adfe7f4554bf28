//! Gateway settings: fixed defaults, each overridable by a decimal text value.
use vstd::prelude::*;
use crate::connection::GatewayConfig;

verus! {

pub const DEFAULT_PORT: u16 = 2222;

pub const DEFAULT_MAX_SESSIONS: usize = 40;

pub const DEFAULT_RATE_LIMIT_PER_MIN: usize = 30;

pub const DEFAULT_IDLE_TIMEOUT_SECS: u64 = 180;

pub const DEFAULT_MAX_SESSION_SECS: u64 = 900;

pub open spec fn is_digit(c: char) -> bool {
    '0' <= c && c <= '9'
}

/// The value of a string of decimal digits.
pub open spec fn digits_value(s: Seq<char>) -> nat
    decreases s.len(),
{
    if s.len() == 0 {
        0
    } else {
        digits_value(s.drop_last()) * 10 + ((s.last() as int) - ('0' as int)) as nat
    }
}

/// The unsigned decimal that `s` spells: an optional `+`, then one or more
/// ASCII digits and nothing else, of a value that fits in 64 bits.
pub open spec fn decimal_u64(s: Seq<char>) -> Option<u64> {
    let body = if s.len() > 0 && s[0] == '+' {
        s.drop_first()
    } else {
        s
    };
    if body.len() > 0 && (forall|i: int| 0 <= i < body.len() ==> is_digit(#[trigger] body[i]))
        && digits_value(body) <= u64::MAX {
        Some(digits_value(body) as u64)
    } else {
        None
    }
}

/// Relies on `str::parse::<u64>` (u64's `FromStr`): it accepts exactly an
/// optional `+` followed by ASCII digits whose value fits in a `u64`.
#[verifier::external_body]
fn parse_u64(s: &str) -> (r: Option<u64>)
    ensures
        r == decimal_u64(s@),
{
    s.parse::<u64>().ok()
}

/// The setting a text value gives, or `default` when it is absent or not a
/// decimal number that fits.
pub open spec fn setting(raw: Option<Seq<char>>, default: int, max: int) -> int {
    match raw {
        Some(s) => match decimal_u64(s) {
            Some(v) => if v <= max {
                v as int
            } else {
                default
            },
            None => default,
        },
        None => default,
    }
}

pub open spec fn view_opt(raw: Option<&str>) -> Option<Seq<char>> {
    match raw {
        Some(s) => Some(s@),
        None => None,
    }
}

/// A 16-bit setting from its text value.
pub fn parse_env_u16(raw: Option<&str>, default: u16) -> (r: u16)
    ensures
        r == setting(view_opt(raw), default as int, u16::MAX as int),
{
    match raw {
        Some(s) => match parse_u64(s) {
            Some(v) => if v <= u16::MAX as u64 {
                v as u16
            } else {
                default
            },
            None => default,
        },
        None => default,
    }
}

/// A size setting from its text value.
pub fn parse_env_usize(raw: Option<&str>, default: usize) -> (r: usize)
    ensures
        r == setting(view_opt(raw), default as int, usize::MAX as int),
{
    match raw {
        Some(s) => match parse_u64(s) {
            Some(v) => if v as u128 <= usize::MAX as u128 {
                v as usize
            } else {
                default
            },
            None => default,
        },
        None => default,
    }
}

/// A 64-bit setting from its text value.
pub fn parse_env_u64(raw: Option<&str>, default: u64) -> (r: u64)
    ensures
        r == setting(view_opt(raw), default as int, u64::MAX as int),
{
    match raw {
        Some(s) => match parse_u64(s) {
            Some(v) => v,
            None => default,
        },
        None => default,
    }
}

/// Seconds as milliseconds, saturating at the largest `u64`.
pub open spec fn secs_to_ms(secs: u64) -> u64 {
    if secs * 1000 <= u64::MAX {
        (secs * 1000) as u64
    } else {
        u64::MAX
    }
}

/// Seconds as milliseconds, saturating.
pub fn secs_as_ms(secs: u64) -> (r: u64)
    ensures
        r == secs_to_ms(secs),
{
    if secs <= u64::MAX / 1000 {
        secs * 1000
    } else {
        u64::MAX
    }
}

impl GatewayConfig {
    /// The configuration from the text values of its five settings (port,
    /// session cap, attempts per address per minute, idle timeout in
    /// seconds, session duration in seconds), each falling back to its
    /// default.
    pub fn from_settings(
        port: Option<&str>,
        max_sessions: Option<&str>,
        rate_limit: Option<&str>,
        idle_timeout_secs: Option<&str>,
        max_session_secs: Option<&str>,
    ) -> (r: GatewayConfig)
        ensures
            r.port == setting(view_opt(port), DEFAULT_PORT as int, u16::MAX as int),
            r.max_sessions == setting(
                view_opt(max_sessions),
                DEFAULT_MAX_SESSIONS as int,
                usize::MAX as int,
            ),
            r.rate_limit_per_min == setting(
                view_opt(rate_limit),
                DEFAULT_RATE_LIMIT_PER_MIN as int,
                usize::MAX as int,
            ),
            r.idle_timeout_ms == secs_to_ms(
                setting(
                    view_opt(idle_timeout_secs),
                    DEFAULT_IDLE_TIMEOUT_SECS as int,
                    u64::MAX as int,
                ) as u64,
            ),
            r.max_session_ms == secs_to_ms(
                setting(
                    view_opt(max_session_secs),
                    DEFAULT_MAX_SESSION_SECS as int,
                    u64::MAX as int,
                ) as u64,
            ),
    {
        let idle = parse_env_u64(idle_timeout_secs, DEFAULT_IDLE_TIMEOUT_SECS);
        let max_secs = parse_env_u64(max_session_secs, DEFAULT_MAX_SESSION_SECS);
        GatewayConfig {
            port: parse_env_u16(port, DEFAULT_PORT),
            max_sessions: parse_env_usize(max_sessions, DEFAULT_MAX_SESSIONS),
            rate_limit_per_min: parse_env_usize(rate_limit, DEFAULT_RATE_LIMIT_PER_MIN),
            idle_timeout_ms: secs_as_ms(idle),
            max_session_ms: secs_as_ms(max_secs),
        }
    }
}

} // verus!
