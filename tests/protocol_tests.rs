use tomato_notify::clock::{Config, CycleInfo, Phase};
use tomato_notify::protocol::{
    handle_request, parse_command, parse_request, reply, Command, ProtocolError,
};
use tomato_notify::scheduler::ControlAction;
use tomato_notify::text::read_i32;

fn info() -> CycleInfo {
    CycleInfo {
        current_phase: Phase::ShortBreak,
        next_phase: Phase::Busy,
        needs_acknowledgment: false,
        phase_started_at: 1_000,
    }
}

#[test]
fn ready_answers_ok() {
    let r = handle_request(b"READY\n", &info(), &Config::default(), 2_000).unwrap();
    assert_eq!(r.body, "OK");
    assert_eq!(r.action, Some(ControlAction::Acknowledge));
}

#[test]
fn remind_answers_ok() {
    let r = handle_request(b"REMIND\n", &info(), &Config::default(), 2_000).unwrap();
    assert_eq!(r.body, "OK");
    assert_eq!(r.action, Some(ControlAction::Snooze));
}

#[test]
fn get_info_answers_an_integer() {
    let r = handle_request(b"GET INFO\n", &info(), &Config::default(), 3_500).unwrap();
    assert_eq!(r.action, None);
    assert_eq!(r.body, "17");
    assert_eq!(read_i32(&r.body), Some(17));
    let r = handle_request(b"GET INFO\n", &info(), &Config::default(), 61_000).unwrap();
    assert_eq!(r.body, "-40");
    assert_eq!(read_i32(&r.body), Some(-40));
}

#[test]
fn missing_newline_is_rejected() {
    assert_eq!(parse_request(b"READY"), Err(ProtocolError::NoNewline));
    assert_eq!(parse_request(b""), Err(ProtocolError::NoNewline));
    assert!(matches!(
        handle_request(b"GET INFO", &info(), &Config::default(), 0),
        Err(ProtocolError::NoNewline)
    ));
}

#[test]
fn empty_line_is_rejected() {
    assert_eq!(parse_request(b"\n"), Err(ProtocolError::EmptyCommand));
    assert_eq!(parse_request(b"\nREADY\n"), Err(ProtocolError::EmptyCommand));
}

#[test]
fn unknown_command_is_rejected() {
    assert_eq!(parse_request(b"BOGUS\n"), Err(ProtocolError::UnknownCommand));
    assert_eq!(parse_request(b"ready\n"), Err(ProtocolError::UnknownCommand));
    assert_eq!(parse_request(b"READY \n"), Err(ProtocolError::UnknownCommand));
    assert!(matches!(
        handle_request(b"BOGUS\n", &info(), &Config::default(), 0),
        Err(ProtocolError::UnknownCommand)
    ));
}

#[test]
fn non_text_is_rejected() {
    assert_eq!(parse_request(b"RE\xffDY\n"), Err(ProtocolError::NotText));
    assert_eq!(parse_request(b"\xc3\n"), Err(ProtocolError::NotText));
}

#[test]
fn only_the_first_line_counts() {
    assert_eq!(parse_request(b"READY\nBOGUS\n"), Ok(Command::Ready));
    assert_eq!(parse_request(b"GET INFO\n\xff"), Ok(Command::GetInfo));
}

#[test]
fn commands_by_text() {
    assert_eq!(parse_command(&"GET INFO".to_string()), Ok(Command::GetInfo));
    assert_eq!(parse_command(&"REMIND".to_string()), Ok(Command::Remind));
    assert_eq!(parse_command(&"GET  INFO".to_string()), Err(ProtocolError::UnknownCommand));
}

#[test]
fn repeated_queries_count_down() {
    let c = Config::default();
    let i = info();
    let mut last = i64::MAX;
    for now in [1_000u64, 1_400, 2_000, 9_999, 21_000, 22_000, 40_000] {
        let r = reply(Command::GetInfo, &i, &c, now);
        assert_eq!(r.action, None);
        let v: i64 = r.body.parse().unwrap();
        assert!(v <= last);
        last = v;
    }
    assert_eq!(last, -19);
}
