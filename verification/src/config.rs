//! Connection configuration and the retry back-off.

use vstd::prelude::*;

use crate::text::{parse_u64, parsed_u64};

verus! {

/// Interval between two polls of a live connection, in milliseconds.
pub const MONITOR_TICK_MS: u64 = 1500;

/// First wait before a connection attempt, in milliseconds.
pub const BACKOFF_INITIAL_MS: u64 = 1500;

/// Longest wait between two connection attempts, in milliseconds.
pub const BACKOFF_MAX_MS: u64 = 30_000;

pub const DEFAULT_TCP_PROBE_MS: u64 = 300;

pub const DEFAULT_CONNECT_SECS: u64 = 4;

pub const DEFAULT_GETINFO_SECS: u64 = 3;

pub const DEFAULT_SUBSCRIBE_SECS: u64 = 5;

pub const DEFAULT_DISCONNECT_SECS: u64 = 2;

/// The wait after `current_ms` once an attempt has failed: twice as long,
/// but never more than `max_ms`.
pub open spec fn backoff_after(current_ms: u64, max_ms: u64) -> u64 {
    if 2 * current_ms <= max_ms {
        (2 * current_ms) as u64
    } else {
        max_ms
    }
}

/// The next wait after a failed attempt: twice the current one (saturating),
/// but never more than `max_ms`.
pub fn next_backoff(current_ms: u64, max_ms: u64) -> (next: u64)
    ensures
        next == backoff_after(current_ms, max_ms),
{
    let doubled = match current_ms.checked_mul(2) {
        Some(d) => d,
        None => u64::MAX,
    };
    if doubled < max_ms {
        doubled
    } else {
        max_ms
    }
}

/// Law: the next wait is exactly twice the current one where that stays
/// within the cap, and the cap otherwise: it never exceeds the cap nor twice
/// the current wait, never falls below the smaller of the current wait and
/// the cap, and a longer wait never yields a shorter next wait.
pub proof fn lemma_next_backoff_bounds(current_ms: u64, other_ms: u64, max_ms: u64)
    ensures
        2 * current_ms <= max_ms ==> backoff_after(current_ms, max_ms) == 2 * current_ms,
        2 * current_ms > max_ms ==> backoff_after(current_ms, max_ms) == max_ms,
        backoff_after(current_ms, max_ms) <= 2 * current_ms,
        backoff_after(current_ms, max_ms) <= max_ms,
        backoff_after(current_ms, max_ms) >= (if current_ms <= max_ms {
            current_ms
        } else {
            max_ms
        }),
        current_ms <= other_ms ==> backoff_after(current_ms, max_ms) <= backoff_after(
            other_ms,
            max_ms,
        ),
{
}

/// The back-off after `k` failures in a row, starting from `start_ms`.
pub open spec fn backoff_after_failures(start_ms: u64, max_ms: u64, k: nat) -> u64
    decreases k,
{
    if k == 0 {
        start_ms
    } else {
        backoff_after(backoff_after_failures(start_ms, max_ms, (k - 1) as nat), max_ms)
    }
}

/// Two to the power `k`.
pub open spec fn power_of_two(k: nat) -> nat
    decreases k,
{
    if k == 0 {
        1
    } else {
        2 * power_of_two((k - 1) as nat)
    }
}

/// From the first failure on, the back-off is within its cap, and it is at
/// least the smaller of `2^k` and the cap where the start is not zero.
proof fn lemma_backoff_failures_bounds(start_ms: u64, max_ms: u64, k: nat)
    ensures
        k >= 1 ==> backoff_after_failures(start_ms, max_ms, k) <= max_ms,
        start_ms >= 1 ==> backoff_after_failures(start_ms, max_ms, k) >= (if power_of_two(k)
            <= max_ms {
            power_of_two(k)
        } else {
            max_ms as nat
        }),
    decreases k,
{
    if k > 0 {
        lemma_backoff_failures_bounds(start_ms, max_ms, (k - 1) as nat);
    }
}

/// Once at the cap, the back-off stays there.
proof fn lemma_backoff_stays_at_cap(start_ms: u64, max_ms: u64, j: nat, k: nat)
    requires
        j <= k,
        backoff_after_failures(start_ms, max_ms, j) == max_ms,
    ensures
        backoff_after_failures(start_ms, max_ms, k) == max_ms,
    decreases k - j,
{
    if j < k {
        lemma_backoff_stays_at_cap(start_ms, max_ms, j, (k - 1) as nat);
    }
}

/// Law: under repeated failures the back-off never shrinks from the first
/// failure on, and from a non-zero start it reaches its cap after at most
/// 64 failures and stays there (from a zero start it stays zero).
pub proof fn lemma_backoff_reaches_cap(start_ms: u64, max_ms: u64, k: nat)
    ensures
        k >= 1 ==> backoff_after_failures(start_ms, max_ms, k) <= backoff_after_failures(
            start_ms,
            max_ms,
            k + 1,
        ),
        k >= 1 ==> backoff_after_failures(start_ms, max_ms, k) <= max_ms,
        start_ms >= 1 && k >= 64 ==> backoff_after_failures(start_ms, max_ms, k) == max_ms,
        start_ms == 0 ==> backoff_after_failures(start_ms, max_ms, k) == 0,
    decreases k,
{
    lemma_backoff_failures_bounds(start_ms, max_ms, k);
    if start_ms >= 1 && k >= 64 {
        assert(power_of_two(64) == 0x1_0000_0000_0000_0000) by {
            reveal_with_fuel(power_of_two, 65);
        }
        lemma_backoff_failures_bounds(start_ms, max_ms, 64);
        lemma_backoff_stays_at_cap(start_ms, max_ms, 64, k);
    }
    if start_ms == 0 && k > 0 {
        lemma_backoff_reaches_cap(start_ms, max_ms, (k - 1) as nat);
    }
}

/// Law: the built-in timing: a first back-off of 1.5 s capped at 30 s, a
/// poll every 1.5 s, and, where the environment says nothing, a 300 ms port
/// probe, 4 s to connect, 3 s for the version call, 5 s per subscription and
/// 2 s to disconnect.
pub proof fn lemma_builtin_timing()
    ensures
        BACKOFF_INITIAL_MS == 1500,
        BACKOFF_MAX_MS == 30000,
        MONITOR_TICK_MS == 1500,
        DEFAULT_TCP_PROBE_MS == 300,
        DEFAULT_CONNECT_SECS == 4,
        DEFAULT_GETINFO_SECS == 3,
        DEFAULT_SUBSCRIBE_SECS == 5,
        DEFAULT_DISCONNECT_SECS == 2,
{
}

/// Law: a setting whose text reads as a number takes that number; an
/// absent or unreadable one takes its default.
pub proof fn lemma_setting_or(text: Option<&str>, default: u64)
    ensures
        text matches Some(t) ==> (parsed_u64(t@) is Some ==> setting_or(text, default)
            == parsed_u64(t@)->0),
        (text is None || parsed_u64(text->0@) is None) ==> setting_or(text, default) == default,
{
}

/// Timeouts of the connection steps and the back-off limits.
pub struct Config {
    pub tcp_probe_timeout_ms: u64,
    pub connect_timeout_secs: u64,
    pub getinfo_timeout_secs: u64,
    pub subscribe_timeout_secs: u64,
    pub disconnect_timeout_secs: u64,
    pub backoff_initial_ms: u64,
    pub backoff_max_ms: u64,
}

/// The value a setting takes: what its text reads as, or the default where
/// it is absent or does not read as a `u64`.
pub open spec fn setting_or(text: Option<&str>, default: u64) -> u64 {
    match text {
        Some(t) => match parsed_u64(t@) {
            Some(v) => v,
            None => default,
        },
        None => default,
    }
}

/// Reads a setting's text, falling back to `default`.
pub fn read_setting(text: Option<&str>, default: u64) -> (v: u64)
    ensures
        v == setting_or(text, default),
{
    match text {
        Some(t) => match parse_u64(t) {
            Some(v) => v,
            None => default,
        },
        None => default,
    }
}

impl Config {
    /// The configuration given the texts of its environment variables
    /// (`WWAAPI_TCP_PROBE_MS`, `WWAAPI_CONNECT_SECS`, `WWAAPI_GETINFO_SECS`,
    /// `WWAAPI_SUBSCRIBE_SECS`, `WWAAPI_DISCONNECT_SECS`,
    /// `WWAAPI_BACKOFF_INITIAL_MS`, `WWAAPI_BACKOFF_MAX_MS`), each absent
    /// where the variable is unset: each value is read as a `u64`, and a
    /// default stands in for any that is absent or unreadable.
    pub fn from_env_values(
        tcp_probe_ms: Option<&str>,
        connect_secs: Option<&str>,
        getinfo_secs: Option<&str>,
        subscribe_secs: Option<&str>,
        disconnect_secs: Option<&str>,
        backoff_initial_ms: Option<&str>,
        backoff_max_ms: Option<&str>,
    ) -> (c: Config)
        ensures
            c.tcp_probe_timeout_ms == setting_or(tcp_probe_ms, DEFAULT_TCP_PROBE_MS),
            c.connect_timeout_secs == setting_or(connect_secs, DEFAULT_CONNECT_SECS),
            c.getinfo_timeout_secs == setting_or(getinfo_secs, DEFAULT_GETINFO_SECS),
            c.subscribe_timeout_secs == setting_or(subscribe_secs, DEFAULT_SUBSCRIBE_SECS),
            c.disconnect_timeout_secs == setting_or(disconnect_secs, DEFAULT_DISCONNECT_SECS),
            c.backoff_initial_ms == setting_or(backoff_initial_ms, BACKOFF_INITIAL_MS),
            c.backoff_max_ms == setting_or(backoff_max_ms, BACKOFF_MAX_MS),
    {
        Config {
            tcp_probe_timeout_ms: read_setting(tcp_probe_ms, DEFAULT_TCP_PROBE_MS),
            connect_timeout_secs: read_setting(connect_secs, DEFAULT_CONNECT_SECS),
            getinfo_timeout_secs: read_setting(getinfo_secs, DEFAULT_GETINFO_SECS),
            subscribe_timeout_secs: read_setting(subscribe_secs, DEFAULT_SUBSCRIBE_SECS),
            disconnect_timeout_secs: read_setting(disconnect_secs, DEFAULT_DISCONNECT_SECS),
            backoff_initial_ms: read_setting(backoff_initial_ms, BACKOFF_INITIAL_MS),
            backoff_max_ms: read_setting(backoff_max_ms, BACKOFF_MAX_MS),
        }
    }
}

} // verus!
