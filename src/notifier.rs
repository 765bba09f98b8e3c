//! The notifier's decisions: when to announce, what to ask the notification
//! backend, and which action the user's answer becomes.
use vstd::prelude::*;
use vstd::utf8::{decode_utf8, valid_utf8};
use crate::clock::{CycleInfo, Phase};
use crate::scheduler::ControlAction;
use crate::text::{decode_text, trim_text, trimmed};

verus! {

/// What one call of the notification backend came to.
#[derive(Clone, Debug)]
pub enum BackendOutcome {
    /// The user chose the action with this id.
    Selected(String),
    /// The notification was dismissed or timed out.
    NoSelection,
    /// The backend could not be run or reported an error.
    Failed,
}

/// The message that announces `next`.
pub open spec fn message_of(next: Phase) -> Seq<char> {
    match next {
        Phase::Busy => "Start work"@,
        Phase::ShortBreak => "Short break"@,
        Phase::LongBreak => "Long break"@,
    }
}

/// The arguments handed to the backend to announce `next`: the two offered
/// actions, then the message.
pub open spec fn arguments_of(next: Phase) -> Seq<Seq<char>> {
    seq!["--action=ok,Ok"@, "--action=remind,Remind me later"@, message_of(next)]
}

pub fn notification_message(next: Phase) -> (r: String)
    ensures
        r@ == message_of(next),
{
    match next {
        Phase::Busy => String::from_str("Start work"),
        Phase::ShortBreak => String::from_str("Short break"),
        Phase::LongBreak => String::from_str("Long break"),
    }
}

/// The backend's arguments when `info` needs an announcement; `None` when it
/// does not.
pub fn announcement_for(info: &CycleInfo) -> (r: Option<Vec<String>>)
    ensures
        r is Some <==> info.needs_acknowledgment,
        r matches Some(args) ==> args@.len() == 3 && forall|i: int|
            0 <= i < 3 ==> #[trigger] args@[i]@ == arguments_of(info.next_phase)[i],
{
    if !info.needs_acknowledgment {
        return None;
    }
    let mut args: Vec<String> = Vec::new();
    args.push(String::from_str("--action=ok,Ok"));
    args.push(String::from_str("--action=remind,Remind me later"));
    args.push(notification_message(info.next_phase));
    Some(args)
}

/// The outcome that the backend's trimmed output `text` stands for: `2`
/// means that nothing was chosen, anything else is the chosen action's id.
pub open spec fn outcome_of_text(text: Seq<char>, r: BackendOutcome) -> bool {
    if text == "2"@ {
        r is NoSelection
    } else {
        r matches BackendOutcome::Selected(id) && id@ == text
    }
}

/// Reads the backend's trimmed output.
pub fn outcome_from_text(text: String) -> (r: BackendOutcome)
    ensures
        outcome_of_text(text@, r),
{
    if text == String::from_str("2") {
        BackendOutcome::NoSelection
    } else {
        BackendOutcome::Selected(text)
    }
}

/// Reads what the backend process reported: whether it succeeded, and what
/// it wrote to its standard output.
pub fn outcome_from_output(succeeded: bool, stdout: &[u8]) -> (r: BackendOutcome)
    ensures
        !succeeded ==> r is Failed,
        succeeded && !valid_utf8(stdout@) ==> r is Failed,
        succeeded && valid_utf8(stdout@) ==> outcome_of_text(trimmed(decode_utf8(stdout@)), r),
{
    if !succeeded {
        return BackendOutcome::Failed;
    }
    match decode_text(stdout) {
        None => BackendOutcome::Failed,
        Some(text) => outcome_from_text(trim_text(text.as_str())),
    }
}

/// The action that an outcome becomes: choosing `ok` acknowledges, every
/// other outcome snoozes.
pub open spec fn action_of(outcome: BackendOutcome) -> ControlAction {
    match outcome {
        BackendOutcome::Selected(id) => if id@ == "ok"@ {
            ControlAction::Acknowledge
        } else {
            ControlAction::Snooze
        },
        _ => ControlAction::Snooze,
    }
}

pub fn action_for(outcome: &BackendOutcome) -> (r: ControlAction)
    ensures
        r == action_of(*outcome),
{
    match outcome {
        BackendOutcome::Selected(id) => if *id == String::from_str("ok") {
            ControlAction::Acknowledge
        } else {
            ControlAction::Snooze
        },
        _ => ControlAction::Snooze,
    }
}

} // verus!
