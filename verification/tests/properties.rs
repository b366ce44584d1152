use burnout_detector::alert::Urgency;
use burnout_detector::logic::Logic;
use burnout_detector::status::Status;
use burnout_detector::Args;

fn make_args(waybar: bool, no_notify: bool, idle_timeout: u64, max: u64) -> Args {
    Args {
        debug: false,
        idle_timeout,
        waybar,
        max_active_sessions: max,
        no_notify,
        icon: "O".to_owned(),
    }
}

#[test]
fn fresh_active_period_shows_nothing() {
    let args = make_args(true, false, 60, 3);
    let mut logic = Logic::new(&args).unwrap();

    logic.status = Status::Active(0, 59 * 1000);
    assert!(logic.run_on_state().is_ok());
    assert_eq!(logic.waybar_output.class, "ok");
    assert_eq!(logic.waybar_output.text, "");
    assert!(logic.pending_notification.is_none());
}

#[test]
fn active_load_never_decreases_and_is_capped() {
    let args = make_args(true, true, 60, 3);
    let mut logic = Logic::new(&args).unwrap();

    let mut last_len: usize = 0;
    let times: Vec<u64> = vec![0, 30, 59, 60, 61, 119, 120, 180, 240, 3600];
    for secs in times {
        logic.status = Status::Active(0, secs * 1000);
        assert!(logic.run_on_state().is_ok());
        assert!(logic.eyes_actual.len() >= last_len);
        assert!(logic.eyes_actual.len() <= 3);
        last_len = logic.eyes_actual.len();
    }
}

#[test]
fn idle_decay_never_increases_and_ends_at_saturation_cycle() {
    let args = make_args(true, true, 60, 3);
    let mut logic = Logic::new(&args).unwrap();

    let mut last_len: usize = 3;
    let times: Vec<u64> = vec![0, 1, 59, 60, 61, 119, 120, 179, 180, 181, 3600];
    for secs in times {
        logic.status = Status::Idle(0, secs * 1000);
        assert!(logic.run_on_state().is_ok());
        assert!(logic.eyes_actual.len() <= last_len);
        assert_eq!(logic.waybar_output.class, "ok");
        assert_eq!(logic.eyes_actual.is_empty(), secs >= 180);
        last_len = logic.eyes_actual.len();
    }
}

#[test]
fn disabled_notifications_never_send() {
    let args = make_args(true, true, 60, 3);
    let mut logic = Logic::new(&args).unwrap();

    for secs in [0u64, 60, 240, 400, 100000] {
        logic.status = Status::Active(0, secs * 1000);
        assert!(logic.run_on_state().is_ok());
        assert!(logic.pending_notification.is_none());
        assert_eq!(logic.alert.counter_sent, 0);
    }

    let r = logic
        .alert
        .send_notification(Urgency::Critical, &Status::Active(0, 500 * 1000));
    assert!(r.is_none());
    assert_eq!(logic.alert.counter_sent, 0);
}

#[test]
fn refresh_twice_at_same_instant_is_idempotent() {
    let args = make_args(true, false, 60, 3);
    let mut logic = Logic::new(&args).unwrap();

    logic.status = Status::Active(2000, 0);
    logic.update(60 * 1000);
    let once = logic.status;
    logic.update(60 * 1000);
    assert_eq!(logic.status, once);
    assert_eq!(once, Status::Active(2000, 58 * 1000));

    logic.status = Status::Idle(5000, 7);
    logic.update(6000);
    let once = logic.status;
    logic.update(6000);
    assert_eq!(logic.status, once);
    assert_eq!(once, Status::Idle(5000, 1000));

    // A refresh before the recorded start clamps the elapsed time at zero.
    logic.update(100);
    assert_eq!(logic.status, Status::Idle(5000, 0));
}

#[test]
fn transitions_always_reset_the_scheduler() {
    let args = make_args(true, false, 60, 3);
    let mut logic = Logic::new(&args).unwrap();
    assert_eq!(logic.alert.next_send_time, 240 * 1000);

    // Drive the scheduler away from its reset values.
    logic.status = Status::Active(0, 240 * 1000);
    assert!(logic.run_on_state().is_ok());
    assert_eq!(logic.alert.counter_sent, 1);
    assert_eq!(logic.alert.next_send_time, 330 * 1000);
    assert_eq!(logic.alert.notification_delay, 90 * 1000);

    logic.set_idle(241 * 1000);
    assert_eq!(logic.status, Status::Idle(241 * 1000, 0));
    assert_eq!(logic.alert.counter_sent, 0);
    assert_eq!(logic.alert.notification_delay, 180 * 1000);
    assert_eq!(logic.alert.next_send_time, 180 * 1000);

    logic.set_resumed(300 * 1000);
    assert_eq!(logic.status, Status::Active(300 * 1000, 0));
    assert_eq!(logic.alert.counter_sent, 0);
    assert_eq!(logic.alert.notification_delay, 180 * 1000);
    assert_eq!(logic.alert.next_send_time, 180 * 1000);

    // In plain mode the next send is due immediately after a reset, and the
    // restored backoff is a single idle timeout.
    let args = make_args(false, false, 60, 3);
    let mut logic = Logic::new(&args).unwrap();
    logic.set_idle(1000);
    assert_eq!(logic.alert.next_send_time, 0);
    assert_eq!(logic.alert.notification_delay, 60 * 1000);
}

#[test]
fn rejects_zero_configuration_values() {
    assert!(Logic::new(&make_args(true, false, 0, 3)).is_err());
    assert!(Logic::new(&make_args(true, false, 60, 0)).is_err());
    assert!(Logic::new(&make_args(true, false, 0, 0)).is_err());
    assert!(Logic::new(&make_args(true, false, 1, 1)).is_ok());
}

#[test]
fn tooltip_renders_elapsed_time() {
    let args = make_args(true, true, 60, 3);
    let mut logic = Logic::new(&args).unwrap();

    logic.status = Status::Active(0, 60 * 1000);
    assert!(logic.run_on_state().is_ok());
    assert_eq!(
        logic.waybar_output.tooltip,
        "You didn't take a break for 00:01:00"
    );

    logic.status = Status::Active(0, 3723 * 1000 + 999);
    assert!(logic.run_on_state().is_ok());
    assert_eq!(
        logic.waybar_output.tooltip,
        "You didn't take a break for 01:02:03"
    );

    logic.status = Status::Idle(0, 120 * 1000);
    assert!(logic.run_on_state().is_ok());
    assert_eq!(logic.waybar_output.tooltip, "You are idle since 00:02:00");
}

#[test]
fn composed_notification_carries_the_send_details() {
    let args = make_args(false, false, 60, 3);
    let mut logic = Logic::new(&args).unwrap();

    logic.status = Status::Active(0, 60 * 1000);
    assert!(logic.run_on_state().is_ok());
    let req = logic.pending_notification.as_ref().unwrap();
    assert_eq!(req.ordinal, 1);
    assert_eq!(req.elapsed_summary, "00:01:00");
    // Half of a 60 second idle timeout is below the recommended ceiling.
    assert_eq!(req.pause_hint, "00:10:00");
    assert_eq!(req.urgency, Urgency::Normal);

    // Once the indicator saturates the urgency turns critical.
    logic.status = Status::Active(0, 240 * 1000);
    assert!(logic.run_on_state().is_ok());
    let req = logic.pending_notification.as_ref().unwrap();
    assert_eq!(req.ordinal, 2);
    assert_eq!(req.urgency, Urgency::Critical);
}

#[test]
fn status_accessors_report_start_and_elapsed() {
    let mut s = Status::Active(1500, 2500);
    assert_eq!(s.start_time(), 1500);
    assert_eq!(s.elapsed_time(), 2500);
    let next = s.update(9000);
    assert_eq!(next, Status::Active(1500, 9000));
    assert_eq!(s, Status::Active(1500, 2500));

    let mut s = Status::Idle(3, 4);
    assert_eq!(s.start_time(), 3);
    assert_eq!(s.elapsed_time(), 4);
    assert_eq!(s.update(5), Status::Idle(3, 5));
}

#[test]
fn full_tick_refreshes_then_computes() {
    let args = make_args(true, false, 60, 3);
    let mut logic = Logic::new(&args).unwrap();

    logic.status = Status::Active(10 * 1000, 0);
    assert!(logic.run(70 * 1000).is_ok());
    assert_eq!(logic.status, Status::Active(10 * 1000, 60 * 1000));
    assert_eq!(logic.waybar_output.class, "warning");
    assert_eq!(logic.waybar_output.text, "O");
}
