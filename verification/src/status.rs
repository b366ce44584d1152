//! The two-state session record: active or idle, with the instant the state
//! began and the elapsed time since then. Pure time bookkeeping; transitions
//! and refreshes are driven from `logic`.

use vstd::prelude::*;

verus! {

/// Status of the session. Each variant carries the instant the state began
/// and the elapsed time since then, both in milliseconds on the caller's
/// monotonic clock. `elapsed` is whatever the last refresh computed; it never
/// decreases within one variant's lifetime.
#[derive(Clone, Copy, PartialEq, Eq, Structural, Debug)]
pub enum Status {
    Active(u64, u64),
    Idle(u64, u64),
}

/// Elapsed time from `start` to `now`, zero when `now` precedes `start`:
/// duration arithmetic is non-negative.
pub open spec fn elapsed_since(start: u64, now_ms: u64) -> u64 {
    if now_ms >= start {
        (now_ms - start) as u64
    } else {
        0u64
    }
}

/// The state re-read at `now_ms`: same variant, same start, elapsed recomputed.
pub open spec fn refreshed(s: Status, now_ms: u64) -> Status {
    match s {
        Status::Active(start, _) => Status::Active(start, elapsed_since(start, now_ms)),
        Status::Idle(start, _) => Status::Idle(start, elapsed_since(start, now_ms)),
    }
}

impl Status {
    /// The instant this state began, in milliseconds.
    pub open spec fn start_ms(self) -> u64 {
        match self {
            Status::Active(start, _) => start,
            Status::Idle(start, _) => start,
        }
    }

    /// The elapsed time recorded at the last refresh, in milliseconds.
    pub open spec fn elapsed_ms(self) -> u64 {
        match self {
            Status::Active(_, elapsed) => elapsed,
            Status::Idle(_, elapsed) => elapsed,
        }
    }

    /// The same state with a different elapsed time.
    pub open spec fn with_elapsed(self, elapsed: u64) -> Status {
        match self {
            Status::Active(start, _) => Status::Active(start, elapsed),
            Status::Idle(start, _) => Status::Idle(start, elapsed),
        }
    }

    /// Return a copy of this state carrying the given elapsed time.
    pub fn update(&mut self, elapsed: u64) -> (r: Status)
        ensures
            *final(self) == *old(self),
            r == old(self).with_elapsed(elapsed),
    {
        match self {
            Status::Active(start, _) => Status::Active(*start, elapsed),
            Status::Idle(start, _) => Status::Idle(*start, elapsed),
        }
    }

    /// Return the start time.
    pub fn start_time(&self) -> (r: u64)
        ensures
            r == self.start_ms(),
    {
        match self {
            Status::Active(start, _) => *start,
            Status::Idle(start, _) => *start,
        }
    }

    /// Return the elapsed time since the start.
    pub fn elapsed_time(&self) -> (r: u64)
        ensures
            r == self.elapsed_ms(),
    {
        match self {
            Status::Active(_, elapsed) => *elapsed,
            Status::Idle(_, elapsed) => *elapsed,
        }
    }
}

/// Re-reading the state twice at the same instant gives the same state as
/// reading it once: a refresh is idempotent.
pub proof fn lemma_refresh_idempotent(s: Status, now_ms: u64)
    ensures
        refreshed(refreshed(s, now_ms), now_ms) == refreshed(s, now_ms),
{
}

} // verus!
