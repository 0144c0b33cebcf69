use productivity_timer::channel::Channels;
use productivity_timer::command::{
    add_minutes, subtract_minutes, trigger_session_completion, trigger_time,
};
use productivity_timer::daemon::{Action, Daemon};
use productivity_timer::error::TimerError;

const SEC: u128 = 1_000_000_000;

fn is_continue(action: &Action) -> bool {
    matches!(action, Action::Continue)
}

fn rejected(action: &Action) -> Option<TimerError> {
    match action {
        Action::Rejected(e) => Some(*e),
        _ => None,
    }
}

#[test]
fn start_pause_add_complete() {
    let mut daemon = Daemon::new(41);
    let mut channels = Channels::new();

    channels.send(trigger_time(None));
    assert!(is_continue(&daemon.step(&mut channels, 100 * SEC)));
    assert!(daemon.session().is_active());
    assert_eq!(channels.command.read(), "");

    channels.send(trigger_time(None));
    assert!(is_continue(&daemon.step(&mut channels, 102 * SEC)));
    assert!(!daemon.session().is_active());
    assert_eq!(channels.time_gained.read(), "00:00:02");
    assert_eq!(channels.durations_count.read(), "1");
    assert_eq!(channels.durations_average.read(), "00:00:02");

    channels.send(add_minutes("10".to_string()).unwrap());
    assert!(is_continue(&daemon.step(&mut channels, 103 * SEC)));
    assert_eq!(channels.amount.read(), "");
    assert_eq!(channels.time_gained.read(), "00:10:02");
    assert_eq!(channels.durations_count.read(), "1");

    channels.send(trigger_session_completion(None));
    let action = daemon.step(&mut channels, 104 * SEC);
    let record = match action {
        Action::Persist(record) => record,
        other => panic!("expected a record, got {:?}", other),
    };
    assert_eq!(record.total_time, "00:10:02");
    assert_eq!(record.durations_count, 1);
    assert_eq!(record.durations_avg, "00:10:02");
    assert_eq!(record.session_id, 41);
    assert_eq!(record.tag, None);
    assert_eq!(record.intervals.len(), 1);
    assert_eq!(record.intervals[0].session_id, 41);
    assert_eq!(record.intervals[0].tag, None);
    assert_eq!(record.intervals[0].time, "00:00:02");
    assert_eq!(daemon.session().id(), 41);
    assert_eq!(daemon.session().completed(), 1);

    daemon.session_saved(42, &mut channels);
    assert_eq!(daemon.session().id(), 42);
    assert_eq!(daemon.session().completed(), 0);
    assert_eq!(channels.time_gained.read(), "00:00:00");
    assert_eq!(channels.durations_count.read(), "0");
    assert_eq!(channels.durations_average.read(), "00:00:00");

    assert!(is_continue(&daemon.step(&mut channels, 105 * SEC)));
    assert_eq!(daemon.session().completed(), 0);
}

#[test]
fn two_toggles_with_no_time_between() {
    let mut daemon = Daemon::new(1);
    let mut channels = Channels::new();
    channels.send(trigger_time(None));
    daemon.step(&mut channels, 7 * SEC);
    assert_eq!(daemon.session().completed(), 0);
    channels.send(trigger_time(None));
    daemon.step(&mut channels, 7 * SEC);
    assert_eq!(daemon.session().completed(), 1);
    assert!(!daemon.session().is_active());
    assert_eq!(channels.durations_count.read(), "1");
    assert_eq!(channels.time_gained.read(), "00:00:00");
    channels.send(trigger_time(None));
    daemon.step(&mut channels, 7 * SEC);
    assert_eq!(daemon.session().completed(), 1);
    assert!(daemon.session().is_active());
}

#[test]
fn of_two_commands_before_a_tick_the_first_is_lost() {
    let mut daemon = Daemon::new(1);
    let mut channels = Channels::new();
    channels.send(trigger_time(None));
    channels.send(add_minutes("3".to_string()).unwrap());
    assert!(is_continue(&daemon.step(&mut channels, SEC)));
    assert!(!daemon.session().is_active());
    assert_eq!(daemon.session().completed(), 0);
    assert_eq!(channels.time_gained.read(), "00:03:00");
}

#[test]
fn a_command_is_carried_out_once() {
    let mut daemon = Daemon::new(1);
    let mut channels = Channels::new();
    channels.send(add_minutes("1".to_string()).unwrap());
    daemon.step(&mut channels, 0);
    daemon.step(&mut channels, SEC);
    daemon.step(&mut channels, 2 * SEC);
    assert_eq!(channels.time_gained.read(), "00:01:00");
}

#[test]
fn an_empty_command_only_publishes() {
    let mut daemon = Daemon::new(1);
    let mut channels = Channels::new();
    assert!(is_continue(&daemon.step(&mut channels, 0)));
    assert_eq!(channels.time_gained.read(), "00:00:00");
    assert_eq!(channels.durations_count.read(), "0");
    assert_eq!(channels.durations_average.read(), "00:00:00");
    channels.command.write("x".to_string());
    assert!(is_continue(&daemon.step(&mut channels, 0)));
    assert_eq!(channels.command.read(), "");
}

#[test]
fn the_running_interval_is_published_as_it_grows() {
    let mut daemon = Daemon::new(1);
    let mut channels = Channels::new();
    channels.send(trigger_time(Some("read".to_string())));
    daemon.step(&mut channels, 10 * SEC);
    daemon.step(&mut channels, 75 * SEC);
    assert_eq!(channels.time_gained.read(), "00:01:05");
    assert_eq!(channels.durations_count.read(), "0");
    assert_eq!(channels.durations_average.read(), "00:00:00");
    assert_eq!(
        daemon.session().get_tag_time_gained("read".to_string(), 75 * SEC),
        Ok("00:01:05".to_string())
    );
}

#[test]
fn a_malformed_amount_is_reported_and_skipped() {
    let mut daemon = Daemon::new(1);
    let mut channels = Channels::new();
    channels.command.write("a".to_string());
    channels.amount.write("ten".to_string());
    let action = daemon.step(&mut channels, 0);
    assert_eq!(rejected(&action), Some(TimerError::InvalidAmount));
    assert_eq!(channels.command.read(), "");
    assert_eq!(channels.amount.read(), "ten");
    assert_eq!(channels.time_gained.read(), "00:00:00");
    channels.command.write("s".to_string());
    channels.amount.write("-1".to_string());
    let action = daemon.step(&mut channels, 0);
    assert_eq!(rejected(&action), Some(TimerError::InvalidAmount));
}

#[test]
fn a_subtraction_below_zero_is_reported_and_skipped() {
    let mut daemon = Daemon::new(1);
    let mut channels = Channels::new();
    channels.send(add_minutes("2".to_string()).unwrap());
    daemon.step(&mut channels, 0);
    channels.send(subtract_minutes("3".to_string()).unwrap());
    let action = daemon.step(&mut channels, 0);
    assert_eq!(rejected(&action), Some(TimerError::NegativeTotal));
    assert_eq!(channels.time_gained.read(), "00:02:00");
    channels.send(subtract_minutes("1".to_string()).unwrap());
    assert!(is_continue(&daemon.step(&mut channels, 0)));
    assert_eq!(channels.time_gained.read(), "00:01:00");
}

#[test]
fn completing_while_tracking_is_refused() {
    let mut daemon = Daemon::new(1);
    let mut channels = Channels::new();
    channels.send(trigger_time(None));
    daemon.step(&mut channels, 0);
    channels.send(trigger_session_completion(Some("monday".to_string())));
    let action = daemon.step(&mut channels, SEC);
    assert_eq!(rejected(&action), Some(TimerError::StillTracking));
    assert!(daemon.session().is_active());
    assert_eq!(daemon.session().tag(), &None);
}

#[test]
fn a_session_that_was_not_saved_is_kept_for_the_next_completion() {
    let mut daemon = Daemon::new(5);
    let mut channels = Channels::new();
    channels.send(trigger_time(Some("read".to_string())));
    daemon.step(&mut channels, 0);
    channels.send(trigger_time(None));
    daemon.step(&mut channels, 3 * SEC);
    channels.send(trigger_session_completion(Some("monday".to_string())));
    let first = daemon.step(&mut channels, 4 * SEC);
    assert!(matches!(first, Action::Persist(_)));
    channels.send(trigger_session_completion(None));
    let second = match daemon.step(&mut channels, 5 * SEC) {
        Action::Persist(record) => record,
        other => panic!("expected a record, got {:?}", other),
    };
    assert_eq!(second.session_id, 5);
    assert_eq!(second.total_time, "00:00:03");
    assert_eq!(second.tag, Some("monday".to_string()));
    assert_eq!(second.intervals.len(), 1);
    assert_eq!(second.intervals[0].tag, Some("read".to_string()));
}

#[test]
fn exit_touches_nothing() {
    let mut daemon = Daemon::new(1);
    let mut channels = Channels::new();
    channels.command.write(" e ".to_string());
    channels.amount.write("4".to_string());
    let action = daemon.step(&mut channels, 0);
    assert!(matches!(action, Action::Exit));
    assert_eq!(channels.command.read(), " e ");
    assert_eq!(channels.amount.read(), "4");
    assert_eq!(channels.time_gained.read(), "");
}

#[test]
fn a_clock_that_went_backward_is_reported() {
    let mut daemon = Daemon::new(1);
    let mut channels = Channels::new();
    channels.send(trigger_time(None));
    daemon.step(&mut channels, 10 * SEC);
    daemon.step(&mut channels, 12 * SEC);
    channels.send(trigger_time(None));
    let action = daemon.step(&mut channels, 9 * SEC);
    assert_eq!(rejected(&action), Some(TimerError::ClockWentBackward));
    assert!(daemon.session().is_active());
    assert_eq!(channels.time_gained.read(), "00:00:02");
    let action = daemon.step(&mut channels, 9 * SEC);
    assert_eq!(rejected(&action), Some(TimerError::ClockWentBackward));
}

#[test]
fn a_tick_reads_the_clock() {
    let mut daemon = Daemon::new(1);
    let mut channels = Channels::new();
    channels.send(trigger_time(None));
    assert!(matches!(daemon.tick(&mut channels), Ok(Action::Continue)));
    assert!(daemon.session().is_active());
    channels.send(trigger_time(None));
    assert!(matches!(daemon.tick(&mut channels), Ok(Action::Continue)));
    assert!(!daemon.session().is_active());
    assert_eq!(daemon.session().completed(), 1);
    assert_eq!(channels.durations_count.read(), "1");
}
