use tomato_notify::clock::{CycleInfo, Phase};
use tomato_notify::notifier::{
    action_for, announcement_for, notification_message, outcome_from_output, outcome_from_text,
    BackendOutcome,
};
use tomato_notify::scheduler::ControlAction;

fn pending(next: Phase) -> CycleInfo {
    CycleInfo {
        current_phase: Phase::Busy,
        next_phase: next,
        needs_acknowledgment: true,
        phase_started_at: 0,
    }
}

#[test]
fn messages_name_the_next_phase() {
    assert_eq!(notification_message(Phase::Busy), "Start work");
    assert_eq!(notification_message(Phase::ShortBreak), "Short break");
    assert_eq!(notification_message(Phase::LongBreak), "Long break");
}

#[test]
fn announces_only_pending_transitions() {
    let mut info = pending(Phase::LongBreak);
    let args = announcement_for(&info).unwrap();
    assert_eq!(
        args,
        vec!["--action=ok,Ok", "--action=remind,Remind me later", "Long break"]
    );
    info.needs_acknowledgment = false;
    assert!(announcement_for(&info).is_none());
}

#[test]
fn backend_output_is_trimmed() {
    match outcome_from_output(true, b"  ok\n") {
        BackendOutcome::Selected(id) => assert_eq!(id, "ok"),
        other => panic!("unexpected {:?}", other),
    }
    match outcome_from_output(true, b"remind\n") {
        BackendOutcome::Selected(id) => assert_eq!(id, "remind"),
        other => panic!("unexpected {:?}", other),
    }
    assert!(matches!(outcome_from_output(true, b"2\n"), BackendOutcome::NoSelection));
}

#[test]
fn backend_failures() {
    assert!(matches!(outcome_from_output(false, b"ok\n"), BackendOutcome::Failed));
    assert!(matches!(outcome_from_output(true, b"\xff\xfe"), BackendOutcome::Failed));
}

#[test]
fn outcome_from_text_reads_dismissal() {
    assert!(matches!(outcome_from_text("2".to_string()), BackendOutcome::NoSelection));
    assert!(matches!(outcome_from_text("22".to_string()), BackendOutcome::Selected(_)));
}

#[test]
fn only_ok_acknowledges() {
    assert_eq!(
        action_for(&BackendOutcome::Selected("ok".to_string())),
        ControlAction::Acknowledge
    );
    assert_eq!(action_for(&BackendOutcome::Selected("remind".to_string())), ControlAction::Snooze);
    assert_eq!(action_for(&BackendOutcome::Selected("OK".to_string())), ControlAction::Snooze);
    assert_eq!(action_for(&BackendOutcome::NoSelection), ControlAction::Snooze);
    assert_eq!(action_for(&BackendOutcome::Failed), ControlAction::Snooze);
    assert_eq!(action_for(&outcome_from_output(true, b"ok\n")), ControlAction::Acknowledge);
}
