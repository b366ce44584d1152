//! The notification scheduler: counts sends, computes the next eligible send
//! time, and escalates frequency once a session has overrun the point where
//! the load indicator saturates. It only decides and composes; the caller
//! performs the actual delivery.

use crate::status::Status;
use crate::timefmt::{hhmmss_of, hhmmss_text};
use crate::{
    sat_add64, sat_mul, sat_mul64, Args, MAX_RECOMMANDED_PAUSE_TIME_MS, MIN_NOTIFICATION_TIME_MS,
};
use vstd::prelude::*;

verus! {

/// How insistent a notification should be.
#[derive(Clone, Copy, PartialEq, Eq, Structural, Debug)]
pub enum Urgency {
    Low,
    Normal,
    Critical,
}

/// Everything a notification carries when the caller delivers it: the ordinal
/// of the send, the rendered elapsed time, the recommended pause length, and
/// the urgency the orchestrator chose.
#[derive(Debug)]
pub struct NotificationRequest {
    pub ordinal: u64,
    pub elapsed_summary: String,
    pub pause_hint: String,
    pub urgency: Urgency,
}

/// Notification policy state. `counter_sent` only grows, except on an
/// explicit reset; `notification_delay` is the backoff interval added to the
/// elapsed time to schedule the next send.
#[derive(Debug)]
pub struct Alert {
    /// App arguments.
    pub args: Args,
    /// Urgency of the last composed notification.
    pub urgency: Urgency,
    /// Number of notifications sent since the last reset.
    pub counter_sent: u64,
    /// Minimum elapsed time of the active period before the next send.
    pub next_send_time: u64,
    /// Backoff interval, in milliseconds.
    pub notification_delay: u64,
    /// Ask the caller not to deliver composed notifications (used by tests);
    /// scheduling and counting are unaffected.
    pub quiet: bool,
}

/// The elapsed time beyond which the scheduler harasses: one full saturation
/// cycle of the load indicator.
pub open spec fn harass_threshold_ms(args: Args) -> u64 {
    sat_mul64(sat_mul64(args.max_active_sessions, args.idle_timeout), 1000)
}

/// The recommended pause length: half the idle timeout (in whole seconds),
/// but never shorter than the configured lower bound.
pub open spec fn pause_hint_ms(args: Args) -> u64 {
    let half = sat_mul64(args.idle_timeout / 2, 1000);
    if half >= MAX_RECOMMANDED_PAUSE_TIME_MS {
        half
    } else {
        MAX_RECOMMANDED_PAUSE_TIME_MS
    }
}

/// The backoff interval a reset restores, mode-dependent: one full saturation
/// cycle in status-bar mode, a single idle timeout otherwise. Construction
/// starts from the same backoff.
pub open spec fn reset_delay_ms(args: Args) -> u64 {
    if args.waybar {
        sat_mul64(sat_mul64(args.idle_timeout, args.max_active_sessions), 1000)
    } else {
        sat_mul64(args.idle_timeout, 1000)
    }
}

/// The next send time a reset restores: after one restored backoff interval
/// in status-bar mode, immediately otherwise.
pub open spec fn reset_next_send_ms(args: Args) -> u64 {
    if args.waybar {
        reset_delay_ms(args)
    } else {
        0u64
    }
}

impl Alert {
    /// A send is eligible when notifications are enabled and the active
    /// period's elapsed time has reached the next send time.
    pub open spec fn eligible(self, elapsed: u64) -> bool {
        &&& !self.args.no_notify
        &&& elapsed >= self.next_send_time
    }

    /// The backoff interval after one send at `elapsed`: first clamped to the
    /// floor, then halved (truncating) when the session has overrun the
    /// harassment threshold and the interval is still at least twice the
    /// floor.
    pub open spec fn delay_after_send(self, elapsed: u64) -> u64 {
        let clamped = if self.notification_delay >= MIN_NOTIFICATION_TIME_MS {
            self.notification_delay
        } else {
            MIN_NOTIFICATION_TIME_MS
        };
        if elapsed > harass_threshold_ms(self.args) && clamped >= 2 * MIN_NOTIFICATION_TIME_MS {
            clamped / 2
        } else {
            clamped
        }
    }

    /// The scheduler state after one send at `elapsed`.
    pub open spec fn after_send(self, elapsed: u64) -> Alert {
        Alert {
            counter_sent: sat_add64(self.counter_sent, 1),
            notification_delay: self.delay_after_send(elapsed),
            next_send_time: sat_add64(elapsed, self.delay_after_send(elapsed)),
            ..self
        }
    }

    /// The scheduler state after a reset of the send schedule alone.
    pub open spec fn after_time_reset(self) -> Alert {
        Alert {
            notification_delay: reset_delay_ms(self.args),
            next_send_time: reset_next_send_ms(self.args),
            ..self
        }
    }

    /// The scheduler state after a full reset: schedule restored, count
    /// zeroed, whatever the prior state was.
    pub open spec fn after_reset(self) -> Alert {
        Alert { counter_sent: 0, ..self.after_time_reset() }
    }

    /// Compose a break notification if one is due. Idle periods never
    /// generate alerts; an ineligible call changes nothing. On an eligible
    /// call the backoff, next send time and count advance, and the returned
    /// request carries the new ordinal, the rendered elapsed time, the pause
    /// hint and the given urgency.
    pub fn send_notification(&mut self, urgency: Urgency, status: &Status) -> (r: Option<
        NotificationRequest,
    >)
        ensures
            match *status {
                Status::Idle(_, _) => r is None && *final(self) == *old(self),
                Status::Active(_, elapsed) => {
                    if old(self).eligible(elapsed) {
                        &&& *final(self) == old(self).after_send(elapsed)
                        &&& r matches Some(req)
                        &&& req.ordinal == final(self).counter_sent
                        &&& req.elapsed_summary@ == hhmmss_of(elapsed)
                        &&& req.pause_hint@ == hhmmss_of(pause_hint_ms(old(self).args))
                        &&& req.urgency == urgency
                    } else {
                        r is None && *final(self) == *old(self)
                    }
                },
            },
    {
        match status {
            Status::Active(_, elapsed) => self.notification_active(*elapsed, urgency),
            Status::Idle(_, _) => None,
        }
    }

    /// One scheduling step of an active period at `elapsed`.
    fn notification_active(&mut self, elapsed: u64, urgency: Urgency) -> (r: Option<
        NotificationRequest,
    >)
        ensures
            if old(self).eligible(elapsed) {
                &&& *final(self) == old(self).after_send(elapsed)
                &&& r matches Some(req)
                &&& req.ordinal == final(self).counter_sent
                &&& req.elapsed_summary@ == hhmmss_of(elapsed)
                &&& req.pause_hint@ == hhmmss_of(pause_hint_ms(old(self).args))
                &&& req.urgency == urgency
            } else {
                r is None && *final(self) == *old(self)
            },
    {
        let should_send = !self.args.no_notify && elapsed >= self.next_send_time;
        if !should_send {
            return None;
        }
        if self.notification_delay < MIN_NOTIFICATION_TIME_MS {
            self.notification_delay = MIN_NOTIFICATION_TIME_MS;
        }
        let harass_threshold = sat_mul(
            sat_mul(self.args.max_active_sessions, self.args.idle_timeout),
            1000,
        );
        let should_harass = elapsed > harass_threshold;
        if should_harass && self.notification_delay >= 2 * MIN_NOTIFICATION_TIME_MS {
            self.notification_delay = self.notification_delay / 2;
        }
        self.next_send_time = elapsed.saturating_add(self.notification_delay);

        let half_timeout = sat_mul(self.args.idle_timeout / 2, 1000);
        let pause_ms = if half_timeout >= MAX_RECOMMANDED_PAUSE_TIME_MS {
            half_timeout
        } else {
            MAX_RECOMMANDED_PAUSE_TIME_MS
        };

        self.counter_sent = self.counter_sent.saturating_add(1);

        Some(
            NotificationRequest {
                ordinal: self.counter_sent,
                elapsed_summary: hhmmss_text(elapsed),
                pause_hint: hhmmss_text(pause_ms),
                urgency,
            },
        )
    }

    /// Restore the send schedule and zero the count, whatever the prior
    /// state: called on every transition between active and idle.
    pub fn reset_notifications(&mut self)
        ensures
            *final(self) == old(self).after_reset(),
    {
        self.reset_next_send_time();
        self.counter_sent = 0;
    }

    /// Restore the backoff interval and the next send time to their
    /// mode-dependent reset values, leaving the count alone.
    pub fn reset_next_send_time(&mut self)
        ensures
            *final(self) == old(self).after_time_reset(),
    {
        self.notification_delay = if self.args.waybar {
            sat_mul(
                sat_mul(self.args.idle_timeout, self.args.max_active_sessions),
                1000,
            )
        } else {
            sat_mul(self.args.idle_timeout, 1000)
        };
        self.next_send_time = if self.args.waybar {
            self.notification_delay
        } else {
            0
        };
    }
}

/// With notifications disabled no scheduler state is ever eligible to send,
/// whatever the elapsed time.
pub proof fn lemma_notifications_disabled(a: Alert, elapsed: u64)
    requires
        a.args.no_notify,
    ensures
        !a.eligible(elapsed),
{
}

/// A reset zeroes the count and recomputes the schedule from the
/// configuration alone: two schedulers with the same configuration agree
/// after a reset, whatever their prior counts and intervals were.
pub proof fn lemma_reset_ignores_prior_state(a1: Alert, a2: Alert)
    requires
        crate::args_eq(a1.args, a2.args),
    ensures
        a1.after_reset().counter_sent == 0,
        a1.after_reset().counter_sent == a2.after_reset().counter_sent,
        a1.after_reset().notification_delay == a2.after_reset().notification_delay,
        a1.after_reset().next_send_time == a2.after_reset().next_send_time,
{
}

} // verus!
