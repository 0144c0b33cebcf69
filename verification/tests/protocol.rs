use productivity_timer::channel::{Channel, Channels};
use productivity_timer::command::{
    add_minutes, checked_amount_request, subtract_minutes, trigger_session_completion,
    trigger_time, Command, AMOUNT_PATTERN,
};
use productivity_timer::error::TimerError;

#[test]
fn the_five_letters_are_commands() {
    assert_eq!(Command::parse("t"), Command::Toggle);
    assert_eq!(Command::parse("a"), Command::Add);
    assert_eq!(Command::parse("s"), Command::Subtract);
    assert_eq!(Command::parse("c"), Command::Complete);
    assert_eq!(Command::parse("e"), Command::Exit);
}

#[test]
fn white_space_around_a_command_is_ignored() {
    assert_eq!(Command::parse("  t\n"), Command::Toggle);
    assert_eq!(Command::parse("\ta "), Command::Add);
    assert_eq!(Command::parse("c\r\n"), Command::Complete);
}

#[test]
fn only_the_first_word_counts() {
    assert_eq!(Command::parse("t later"), Command::Toggle);
    assert_eq!(Command::parse(" e t"), Command::Exit);
}

#[test]
fn anything_else_does_nothing() {
    assert_eq!(Command::parse(""), Command::Noop);
    assert_eq!(Command::parse("   "), Command::Noop);
    assert_eq!(Command::parse("p"), Command::Noop);
    assert_eq!(Command::parse("tt"), Command::Noop);
    assert_eq!(Command::parse("T"), Command::Noop);
    assert_eq!(Command::parse("toggle"), Command::Noop);
}

#[test]
fn the_letter_of_a_command_reads_back() {
    for command in [
        Command::Toggle,
        Command::Add,
        Command::Subtract,
        Command::Complete,
        Command::Exit,
        Command::Noop,
    ] {
        assert_eq!(Command::parse(command.code()), command);
    }
    assert_eq!(Command::Toggle.code(), "t");
    assert_eq!(Command::Noop.code(), "");
}

#[test]
fn the_pattern_for_amounts_is_digits_only() {
    assert_eq!(AMOUNT_PATTERN, r"^\d+$");
}

#[test]
fn an_amount_of_digits_is_sent() {
    let r = add_minutes("15".to_string()).unwrap();
    assert_eq!(r.command, Command::Add);
    assert_eq!(r.amount, Some("15".to_string()));
    assert_eq!(r.tag, None);
    let r = subtract_minutes("7".to_string()).unwrap();
    assert_eq!(r.command, Command::Subtract);
    assert_eq!(r.amount, Some("7".to_string()));
}

#[test]
fn an_amount_that_is_no_number_is_turned_away() {
    assert_eq!(add_minutes("ten".to_string()).err(), Some(TimerError::InvalidAmount));
    assert_eq!(add_minutes("".to_string()).err(), Some(TimerError::InvalidAmount));
    assert_eq!(add_minutes("-5".to_string()).err(), Some(TimerError::InvalidAmount));
    assert_eq!(add_minutes("1 5".to_string()).err(), Some(TimerError::InvalidAmount));
    assert_eq!(add_minutes("15\n".to_string()).err(), Some(TimerError::InvalidAmount));
    assert_eq!(subtract_minutes("1.5".to_string()).err(), Some(TimerError::InvalidAmount));
}

#[test]
fn the_answer_of_the_pattern_decides() {
    let ok = checked_amount_request(Command::Add, "3".to_string(), Some(true)).unwrap();
    assert_eq!(ok.amount, Some("3".to_string()));
    assert_eq!(
        checked_amount_request(Command::Add, "3".to_string(), Some(false)).err(),
        Some(TimerError::InvalidAmount)
    );
    assert_eq!(
        checked_amount_request(Command::Add, "3".to_string(), None).err(),
        Some(TimerError::PatternRejected)
    );
}

#[test]
fn errors_that_reject_input_are_told_apart() {
    assert!(TimerError::InvalidAmount.rejects_input());
    assert!(TimerError::InvalidFileName.rejects_input());
    assert!(TimerError::PatternRejected.rejects_input());
    assert!(!TimerError::ClockWentBackward.rejects_input());
    assert!(!TimerError::NegativeTotal.rejects_input());
    assert!(!TimerError::AlreadyClosed.rejects_input());
    assert!(!TimerError::NotTracking.rejects_input());
}

#[test]
fn requests_carry_their_tag() {
    let r = trigger_time(Some("read".to_string()));
    assert_eq!(r.command, Command::Toggle);
    assert_eq!(r.tag, Some("read".to_string()));
    assert_eq!(r.amount, None);
    let r = trigger_time(None);
    assert_eq!(r.tag, None);
    let r = trigger_session_completion(Some("monday".to_string()));
    assert_eq!(r.command, Command::Complete);
    assert_eq!(r.tag, Some("monday".to_string()));
}

#[test]
fn a_channel_holds_the_last_value_written() {
    let mut c = Channel::new();
    assert!(c.is_empty());
    assert_eq!(c.read(), "");
    c.write("t".to_string());
    c.write("a".to_string());
    assert_eq!(c.read(), "a");
    assert!(!c.is_empty());
    c.clear();
    assert!(c.is_empty());
    assert_eq!(c.read(), "");
}

#[test]
fn a_command_written_over_another_is_the_only_one_seen() {
    let mut channels = Channels::new();
    channels.send(trigger_time(Some("read".to_string())));
    channels.send(add_minutes("10".to_string()).unwrap());
    assert_eq!(channels.command.read(), "a");
    assert_eq!(Command::parse(channels.command.read()), Command::Add);
    assert_eq!(channels.amount.read(), "10");
    assert_eq!(channels.tag.read(), "read");
}

#[test]
fn a_request_without_a_tag_leaves_the_tag_channel() {
    let mut channels = Channels::new();
    channels.send(trigger_time(Some("read".to_string())));
    channels.send(trigger_time(None));
    assert_eq!(channels.command.read(), "t");
    assert_eq!(channels.tag.read(), "read");
    assert_eq!(channels.amount.read(), "");
}
