//! The per-tick orchestrator: refreshes the session state, derives the load
//! indicator, decides whether the scheduler should fire, and produces the
//! status-bar record. Side effects (delivering a notification, printing the
//! record) are left to the caller, which reads `pending_notification` and
//! `waybar_output` after each tick.

use crate::alert::{
    pause_hint_ms, reset_delay_ms, Alert, NotificationRequest, Urgency,
};
use crate::status::{refreshed, Status};
use crate::timefmt::{hhmmss_of, hhmmss_text};
use crate::{args_eq, clone_args, init_next_send_ms, sat_mul, Args};
use vstd::prelude::*;
use vstd::string::StringExecFns;

verus! {

/// Status-bar record, recomputed every tick: the indicator glyphs joined by
/// spaces, a severity class, and a human-readable summary.
#[derive(Debug)]
pub struct WaybarOutput {
    pub text: String,
    pub class: String,
    pub tooltip: String,
}

/// Logic of the app: owns the session state, the notification scheduler and
/// the last status-bar record.
#[derive(Debug)]
pub struct Logic {
    /// App arguments.
    pub args: Args,
    /// Session state.
    pub status: Status,
    /// One entry per displayed load unit, each holding the glyph.
    pub eyes_actual: Vec<String>,
    /// Status-bar record of the last tick.
    pub waybar_output: WaybarOutput,
    /// Notification scheduler.
    pub alert: Alert,
    /// The notification composed by the last tick, if one became due; the
    /// caller delivers it.
    pub pending_notification: Option<NotificationRequest>,
}

/// Discrete load indicator: one unit per full idle timeout of activity,
/// capped at the configured maximum.
pub open spec fn load_units_of(args: Args, elapsed_ms: u64) -> u64 {
    let by_time = (elapsed_ms / 1000) as u64 / args.idle_timeout;
    if by_time >= args.max_active_sessions {
        args.max_active_sessions
    } else {
        by_time
    }
}

/// Severity class shown in the status bar for a load indicator value.
pub open spec fn class_text(load: u64, max: u64) -> Seq<char> {
    if load == 0 {
        "ok"@
    } else if load < max {
        "warning"@
    } else {
        "critical"@
    }
}

/// The status-bar text for `n` load units: `n` copies of the glyph joined by
/// single spaces.
pub open spec fn glyph_text(icon: Seq<char>, n: nat) -> Seq<char>
    decreases n,
{
    if n == 0 {
        Seq::empty()
    } else if n == 1 {
        icon
    } else {
        glyph_text(icon, (n - 1) as nat) + seq![' '] + icon
    }
}

/// Load units an idle period has decayed away: linear in idle time, reaching
/// the maximum exactly after one full saturation cycle.
pub open spec fn idle_removed(args: Args, elapsed_ms: u64) -> u64 {
    crate::sat_mul64((elapsed_ms / 1000) as u64, args.max_active_sessions) / crate::sat_mul64(
        args.max_active_sessions,
        args.idle_timeout,
    )
}

/// Load units still shown while idle, clamped at zero.
pub open spec fn idle_remaining(args: Args, elapsed_ms: u64) -> u64 {
    let removed = idle_removed(args, elapsed_ms);
    if removed >= args.max_active_sessions {
        0u64
    } else {
        (args.max_active_sessions - removed) as u64
    }
}

/// Whether an active tick should attempt a notification: in status-bar mode
/// exactly when the indicator is saturated, in plain mode once a full idle
/// timeout has elapsed.
pub open spec fn should_notify(args: Args, elapsed_ms: u64) -> bool {
    if args.waybar {
        load_units_of(args, elapsed_ms) == args.max_active_sessions
    } else {
        (elapsed_ms / 1000) as u64 >= args.idle_timeout
    }
}

/// Urgency of an active tick's notification: critical once the indicator is
/// saturated.
pub open spec fn urgency_of(args: Args, elapsed_ms: u64) -> Urgency {
    if load_units_of(args, elapsed_ms) < args.max_active_sessions {
        Urgency::Normal
    } else {
        Urgency::Critical
    }
}

/// What one active tick at `elapsed_ms` does to the monitor.
pub open spec fn active_post(pre: Logic, post: Logic, elapsed_ms: u64) -> bool {
    let args = pre.args;
    let load = load_units_of(args, elapsed_ms);
    &&& post.args == pre.args
    &&& post.status == pre.status
    &&& post.eyes_actual@.len() == load
    &&& (forall|i: int| 0 <= i < load ==> #[trigger] post.eyes_actual@[i]@ == args.icon@)
    &&& post.waybar_output.class@ == class_text(load, args.max_active_sessions)
    &&& post.waybar_output.text@ == glyph_text(args.icon@, load as nat)
    &&& post.waybar_output.tooltip@ == "You didn't take a break for "@ + hhmmss_of(elapsed_ms)
    &&& if should_notify(args, elapsed_ms) && pre.alert.eligible(elapsed_ms) {
        &&& post.alert == pre.alert.after_send(elapsed_ms)
        &&& post.pending_notification matches Some(req)
        &&& req.ordinal == post.alert.counter_sent
        &&& req.elapsed_summary@ == hhmmss_of(elapsed_ms)
        &&& req.pause_hint@ == hhmmss_of(pause_hint_ms(pre.alert.args))
        &&& req.urgency == urgency_of(args, elapsed_ms)
    } else {
        post.alert == pre.alert && post.pending_notification is None
    }
}

/// What one idle tick at `elapsed_ms` does to the monitor: the indicator
/// decays, the class is always `ok`, and no notification fires.
pub open spec fn idle_post(pre: Logic, post: Logic, elapsed_ms: u64) -> bool {
    let args = pre.args;
    let remaining = idle_remaining(args, elapsed_ms);
    &&& post.args == pre.args
    &&& post.status == pre.status
    &&& post.alert == pre.alert
    &&& post.pending_notification is None
    &&& post.eyes_actual@.len() == remaining
    &&& (forall|i: int| 0 <= i < remaining ==> #[trigger] post.eyes_actual@[i]@ == args.icon@)
    &&& post.waybar_output.class@ == "ok"@
    &&& post.waybar_output.text@ == glyph_text(args.icon@, remaining as nat)
    &&& post.waybar_output.tooltip@ == "You are idle since "@ + hhmmss_of(elapsed_ms)
}

/// What one full tick at `now_ms` does: the session state is refreshed, then
/// the active or idle step runs on the refreshed elapsed time.
pub open spec fn run_post(pre: Logic, post: Logic, now_ms: u64) -> bool {
    let st = refreshed(pre.status, now_ms);
    let mid = Logic { status: st, ..pre };
    match st {
        Status::Active(_, elapsed) => active_post(mid, post, elapsed),
        Status::Idle(_, elapsed) => idle_post(mid, post, elapsed),
    }
}

/// A row of `n` glyphs, one per displayed load unit.
fn eyes_row(icon: &String, n: u64) -> (r: Vec<String>)
    ensures
        r@.len() == n,
        forall|i: int| 0 <= i < n ==> #[trigger] r@[i]@ == icon@,
{
    let mut v: Vec<String> = Vec::new();
    let mut i: u64 = 0;
    while i < n
        invariant
            i <= n,
            v@.len() == i,
            forall|j: int| 0 <= j < i ==> #[trigger] v@[j]@ == icon@,
        decreases n - i,
    {
        v.push(icon.clone());
        i = i + 1;
    }
    v
}

/// The glyphs joined by single spaces.
fn eyes_text(icon: &String, n: u64) -> (r: String)
    ensures
        r@ == glyph_text(icon@, n as nat),
{
    let mut s = String::new();
    let mut i: u64 = 0;
    while i < n
        invariant
            i <= n,
            s@ == glyph_text(icon@, i as nat),
        decreases n - i,
    {
        if i > 0 {
            s.append(" ");
            proof {
                reveal_strlit(" ");
                assert(" "@ =~= seq![' ']);
            }
        }
        s.append(icon.as_str());
        proof {
            if i == 0 {
                assert(s@ =~= icon@);
            }
        }
        i = i + 1;
    }
    s
}

impl Logic {
    /// Well-formedness: the configuration was validated at construction and
    /// the scheduler carries the same configuration.
    pub open spec fn wf(self) -> bool {
        &&& self.args.idle_timeout > 0
        &&& self.args.max_active_sessions > 0
        &&& args_eq(self.alert.args, self.args)
    }

    /// Build the monitor. The caller has already ruled out the configuration
    /// with no output channel; a zero idle timeout or a zero indicator
    /// maximum is a fatal configuration error, reported as `Err`.
    pub fn new(args: &Args) -> (r: Result<Logic, ()>)
        requires
            args.waybar || !args.no_notify,
        ensures
            r is Ok <==> args.idle_timeout > 0 && args.max_active_sessions > 0,
            r matches Ok(l) ==> {
                &&& l.wf()
                &&& args_eq(l.args, *args)
                &&& args_eq(l.alert.args, *args)
                &&& l.status == Status::Active(0u64, 0u64)
                &&& l.alert.counter_sent == 0
                &&& l.alert.next_send_time == init_next_send_ms(*args)
                &&& l.alert.notification_delay == reset_delay_ms(*args)
                &&& l.alert.urgency == Urgency::Low
                &&& !l.alert.quiet
                &&& l.eyes_actual@.len() == 0
                &&& l.waybar_output.text@.len() == 0
                &&& l.waybar_output.class@ == "ok"@
                &&& l.waybar_output.tooltip@.len() == 0
                &&& l.pending_notification is None
            },
    {
        if args.idle_timeout == 0 || args.max_active_sessions == 0 {
            return Err(());
        }

        let next_send_time = if args.waybar {
            sat_mul(
                sat_mul(args.idle_timeout, args.max_active_sessions.saturating_add(1)),
                1000,
            )
        } else {
            0
        };

        let notification_delay = if args.waybar {
            sat_mul(sat_mul(args.idle_timeout, args.max_active_sessions), 1000)
        } else {
            sat_mul(args.idle_timeout, 1000)
        };

        let alert = Alert {
            args: clone_args(args),
            next_send_time,
            counter_sent: 0,
            notification_delay,
            urgency: Urgency::Low,
            quiet: false,
        };

        let waybar_output = WaybarOutput {
            text: String::new(),
            class: "ok".to_owned(),
            tooltip: String::new(),
        };

        Ok(
            Logic {
                args: clone_args(args),
                status: Status::Active(0, 0),
                alert,
                eyes_actual: Vec::new(),
                waybar_output,
                pending_notification: None,
            },
        )
    }

    /// Replace the session state with a fresh active period beginning at
    /// `now_ms` and reset the scheduler: called on a resume edge event.
    pub fn set_resumed(&mut self, now_ms: u64)
        ensures
            *final(self) == (Logic {
                status: Status::Active(now_ms, 0u64),
                alert: old(self).alert.after_reset(),
                ..*old(self)
            }),
    {
        self.status = Status::Active(now_ms, 0);
        self.alert.reset_notifications();
    }

    /// Replace the session state with a fresh idle period beginning at
    /// `now_ms` and reset the scheduler: called on an idle edge event.
    pub fn set_idle(&mut self, now_ms: u64)
        ensures
            *final(self) == (Logic {
                status: Status::Idle(now_ms, 0u64),
                alert: old(self).alert.after_reset(),
                ..*old(self)
            }),
    {
        self.status = Status::Idle(now_ms, 0);
        self.alert.reset_notifications();
    }

    /// Refresh the session state's elapsed time to `now_ms` minus its start.
    pub fn update(&mut self, now_ms: u64)
        ensures
            *final(self) == (Logic { status: refreshed(old(self).status, now_ms), ..*old(self) }),
    {
        let start = self.status.start_time();
        let elapsed = now_ms.saturating_sub(start);
        let next = self.status.update(elapsed);
        self.status = next;
    }

    /// One full tick at `now_ms`: refresh, then run on the refreshed state.
    pub fn run(&mut self, now_ms: u64) -> (r: Result<(), ()>)
        requires
            old(self).wf(),
        ensures
            r is Ok,
            final(self).wf(),
            run_post(*old(self), *final(self), now_ms),
    {
        self.update(now_ms);
        self.run_on_state()
    }

    /// Run the active or idle step on the current state's elapsed time.
    pub fn run_on_state(&mut self) -> (r: Result<(), ()>)
        requires
            old(self).wf(),
        ensures
            r is Ok,
            final(self).wf(),
            match old(self).status {
                Status::Active(_, elapsed) => active_post(*old(self), *final(self), elapsed),
                Status::Idle(_, elapsed) => idle_post(*old(self), *final(self), elapsed),
            },
    {
        match self.status {
            Status::Active(_, elapsed) => self.compute_active(elapsed),
            Status::Idle(_, elapsed) => self.compute_idle(elapsed),
        }
        Ok(())
    }

    /// The active step: derive the load indicator, attempt a notification
    /// when due, and rebuild the status-bar record.
    pub fn compute_active(&mut self, elapsed: u64)
        requires
            old(self).wf(),
            old(self).status matches Status::Active(_, e) && e == elapsed,
        ensures
            final(self).wf(),
            active_post(*old(self), *final(self), elapsed),
    {
        let by_time = (elapsed / 1000) / self.args.idle_timeout;
        let expected_number_of_eyes = if by_time >= self.args.max_active_sessions {
            self.args.max_active_sessions
        } else {
            by_time
        };

        self.eyes_actual = eyes_row(&self.args.icon, expected_number_of_eyes);

        let to_notify = if self.args.waybar {
            expected_number_of_eyes == self.args.max_active_sessions
        } else {
            elapsed / 1000 >= self.args.idle_timeout
        };

        if to_notify {
            let urgency = if expected_number_of_eyes < self.args.max_active_sessions {
                Urgency::Normal
            } else {
                Urgency::Critical
            };
            self.pending_notification = self.alert.send_notification(urgency, &self.status);
        } else {
            self.pending_notification = None;
        }

        self.waybar_output.class = if expected_number_of_eyes == 0 {
            "ok".to_owned()
        } else if expected_number_of_eyes < self.args.max_active_sessions {
            "warning".to_owned()
        } else {
            "critical".to_owned()
        };

        let elapsed_text = hhmmss_text(elapsed);
        let mut tooltip = "You didn't take a break for ".to_owned();
        tooltip.append(elapsed_text.as_str());
        self.waybar_output.tooltip = tooltip;
        self.waybar_output.text = eyes_text(&self.args.icon, expected_number_of_eyes);
    }

    /// The idle step: decay the load indicator linearly with idle time and
    /// rebuild the status-bar record; no notification ever fires while idle.
    pub fn compute_idle(&mut self, elapsed: u64)
        requires
            old(self).wf(),
        ensures
            final(self).wf(),
            idle_post(*old(self), *final(self), elapsed),
    {
        let max_eyes = self.args.max_active_sessions;
        let max_seconds = sat_mul(max_eyes, self.args.idle_timeout);
        assert(max_eyes * self.args.idle_timeout >= 1) by (nonlinear_arith)
            requires
                max_eyes >= 1,
                self.args.idle_timeout >= 1,
        ;

        let new_eyes_to_remove = sat_mul(elapsed / 1000, max_eyes) / max_seconds;
        let new_eyes = if new_eyes_to_remove >= max_eyes {
            0
        } else {
            max_eyes - new_eyes_to_remove
        };

        self.eyes_actual = eyes_row(&self.args.icon, new_eyes);
        self.pending_notification = None;

        self.waybar_output.class = "ok".to_owned();
        let elapsed_text = hhmmss_text(elapsed);
        let mut tooltip = "You are idle since ".to_owned();
        tooltip.append(elapsed_text.as_str());
        self.waybar_output.tooltip = tooltip;
        self.waybar_output.text = eyes_text(&self.args.icon, new_eyes);
    }
}

} // verus!
