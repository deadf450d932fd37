use rinputer::event::{Event, ABS_HAT0X, ABS_HAT0Y, BTN_SOUTH, BTN_TR, BTN_WEST};
use rinputer::remote::{filter_line, parse_filtered_line, parse_remote_line, RemoteLineError};

#[test]
fn south_button_line() {
    assert_eq!(parse_remote_line("BTN_SOUTH 1\n"), Ok(Some(Event::key(BTN_SOUTH, 1))));
    assert_eq!(parse_remote_line("BTN_SOUTH 0\n"), Ok(Some(Event::key(BTN_SOUTH, 0))));
}

#[test]
fn dpad_left_line_is_negated() {
    assert_eq!(parse_remote_line("BTN_DPAD_LEFT 1\n"), Ok(Some(Event::abs(ABS_HAT0X, -1))));
    assert_eq!(parse_remote_line("BTN_DPAD_RIGHT 1\n"), Ok(Some(Event::abs(ABS_HAT0X, 1))));
    assert_eq!(parse_remote_line("BTN_DPAD_UP 1\n"), Ok(Some(Event::abs(ABS_HAT0Y, -1))));
    assert_eq!(parse_remote_line("BTN_DPAD_DOWN 0\n"), Ok(Some(Event::abs(ABS_HAT0Y, 0))));
}

#[test]
fn other_tokens() {
    assert_eq!(parse_remote_line("BTN_TR 1\n"), Ok(Some(Event::key(BTN_TR, 1))));
    assert_eq!(parse_remote_line("BTN_TL2 1\n"), Ok(Some(Event::key(BTN_WEST, 1))));
}

#[test]
fn unknown_tokens_are_ignored() {
    assert_eq!(parse_remote_line("BTN_FOO 1\n"), Ok(None));
    assert_eq!(parse_remote_line("BTN_FOO\n"), Ok(None));
    assert_eq!(parse_remote_line("\n"), Ok(None));
}

#[test]
fn malformed_lines_are_errors() {
    assert_eq!(parse_remote_line("BTN_SOUTH\n"), Err(RemoteLineError::MissingValue));
    assert_eq!(parse_remote_line("BTN_SOUTH x\n"), Err(RemoteLineError::BadValue));
    assert_eq!(parse_remote_line("BTN_SOUTH \n"), Err(RemoteLineError::BadValue));
    assert_eq!(parse_remote_line("BTN_SOUTH 2147483648\n"), Err(RemoteLineError::BadValue));
}

#[test]
fn punctuation_is_filtered_out() {
    assert_eq!(filter_line("BTN_SOUTH -1;\n"), "BTNSOUTH 1\n");
    assert_eq!(parse_remote_line("BTN_SOUTH -1\n"), Ok(Some(Event::key(BTN_SOUTH, 1))));
    assert_eq!(parse_filtered_line("BTNSOUTH 2147483647"), Ok(Some(Event::key(BTN_SOUTH, 2147483647))));
}

#[test]
fn filter_keeps_non_ascii_letters_and_spaces() {
    assert_eq!(filter_line("é-ß\u{3000}7!"), "éß\u{3000}7");
}
