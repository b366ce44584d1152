//! Tracks how long a user has been continuously active at a workstation.
//!
//! The crate holds the timing core of a break-reminder daemon: a two-state
//! session machine (`status`), a notification scheduler with an accelerating
//! backoff (`alert`), and the per-tick orchestrator that derives a status-bar
//! record from the session state (`logic`). All durations and instants are
//! whole milliseconds on a monotonic process clock that the caller supplies;
//! the caller also performs every side effect (showing a notification bubble,
//! printing the status-bar record).

use vstd::prelude::*;

pub mod alert;
pub mod laws;
pub mod logic;
pub mod status;
pub mod timefmt;

verus! {

/// Runtime configuration, validated by the caller and immutable afterwards.
///
/// The combination `waybar == false && no_notify == true` leaves no output
/// channel; callers never construct the core with it.
#[derive(Clone, Debug)]
pub struct Args {
    /// Print diagnostic state each tick (a caller-side concern).
    pub debug: bool,
    /// Glyph repeated once per load unit in the status-bar text.
    pub icon: String,
    /// Seconds of activity that make up one load unit.
    pub idle_timeout: u64,
    /// Number of load units at which the indicator saturates.
    pub max_active_sessions: u64,
    /// Disable break notifications entirely.
    pub no_notify: bool,
    /// Produce a status-bar record each tick.
    pub waybar: bool,
}

/// Floor on the notification backoff interval, in milliseconds.
pub const MIN_NOTIFICATION_TIME_MS: u64 = 15000;

/// The pause length recommended in a notification is never shorter than
/// this, in milliseconds.
pub const MAX_RECOMMANDED_PAUSE_TIME_MS: u64 = 600000;

/// Field-by-field agreement of two configurations, comparing the glyph by
/// its characters.
pub open spec fn args_eq(x: Args, y: Args) -> bool {
    &&& x.debug == y.debug
    &&& x.icon@ == y.icon@
    &&& x.idle_timeout == y.idle_timeout
    &&& x.max_active_sessions == y.max_active_sessions
    &&& x.no_notify == y.no_notify
    &&& x.waybar == y.waybar
}

/// The sum of two durations, saturating at the largest representable value,
/// as all duration arithmetic here does.
pub open spec fn sat_add64(a: u64, b: u64) -> u64 {
    if a + b > u64::MAX {
        u64::MAX
    } else {
        (a + b) as u64
    }
}

/// The product of two durations, saturating at the largest representable
/// value, as all duration arithmetic here does.
pub open spec fn sat_mul64(a: u64, b: u64) -> u64 {
    if a * b > u64::MAX {
        u64::MAX
    } else {
        (a * b) as u64
    }
}

/// Saturating multiplication of millisecond durations.
pub fn sat_mul(a: u64, b: u64) -> (r: u64)
    ensures
        r == sat_mul64(a, b),
{
    match a.checked_mul(b) {
        Some(x) => x,
        None => u64::MAX,
    }
}

/// The next send time the monitor is built with: in status-bar mode one idle
/// timeout beyond the saturation cycle, so that the first alert never fires
/// before the indicator has been saturated for a while; immediately otherwise.
pub open spec fn init_next_send_ms(args: Args) -> u64 {
    if args.waybar {
        sat_mul64(sat_mul64(args.idle_timeout, sat_add64(args.max_active_sessions, 1)), 1000)
    } else {
        0u64
    }
}

/// The timeout handed to the platform's idle detector, in milliseconds: one
/// second less than the idle timeout when that is under a minute, a full
/// minute otherwise.
pub fn idle_poll_timeout_ms(idle_timeout: u64) -> (r: u32)
    requires
        idle_timeout > 0,
    ensures
        r == if idle_timeout < 60 {
            ((idle_timeout - 1) * 1000) as u32
        } else {
            60000u32
        },
{
    if idle_timeout < 60 {
        // if the idle timeout is under a minute, poll one second earlier
        (idle_timeout as u32 - 1) * 1000
    } else {
        // or use a minute as the detection timeout
        60 * 1000
    }
}

/// A copy of the configuration that provably agrees with its source, field
/// by field.
pub fn clone_args(a: &Args) -> (r: Args)
    ensures
        args_eq(r, *a),
{
    Args {
        debug: a.debug,
        icon: a.icon.clone(),
        idle_timeout: a.idle_timeout,
        max_active_sessions: a.max_active_sessions,
        no_notify: a.no_notify,
        waybar: a.waybar,
    }
}

} // verus!
