//! The command protocol spoken over the daemon's local socket.
//!
//! A client writes one command line ending in a newline and closes its write
//! side; the server answers with a body and closes the connection, or closes
//! it without a body when the request is rejected.
use vstd::prelude::*;
use vstd::utf8::{decode_utf8, valid_utf8};
use crate::clock::{remaining_seconds, spec_remaining_seconds, Config, CycleInfo};
use crate::scheduler::ControlAction;
use crate::text::{decode_text, decimal_text, decimal_value, lemma_decimal_round_trip, signed_decimal};

verus! {

/// The most bytes of a request that the server reads.
pub const REQUEST_CAPACITY: usize = 32;

/// The byte that ends a command line.
pub const NEWLINE: u8 = 10;

#[derive(Clone, Copy, Debug, PartialEq, Eq, Structural)]
pub enum Command {
    /// `GET INFO`: seconds left in the current phase.
    GetInfo,
    /// `READY`: acknowledge the pending transition.
    Ready,
    /// `REMIND`: ask to be reminded later.
    Remind,
}

/// Why a request was rejected.
#[derive(Clone, Copy, Debug, PartialEq, Eq, Structural)]
pub enum ProtocolError {
    NoNewline,
    EmptyCommand,
    NotText,
    UnknownCommand,
}

/// `i` is the position of the first newline in `b`.
pub open spec fn is_first_newline(b: Seq<u8>, i: int) -> bool {
    &&& 0 <= i < b.len()
    &&& b[i] == NEWLINE
    &&& forall|j: int| 0 <= j < i ==> b[j] != NEWLINE
}

/// The command that a line of text names.
pub open spec fn command_of(line: Seq<char>) -> Result<Command, ProtocolError> {
    if line == "GET INFO"@ {
        Ok(Command::GetInfo)
    } else if line == "READY"@ {
        Ok(Command::Ready)
    } else if line == "REMIND"@ {
        Ok(Command::Remind)
    } else {
        Err(ProtocolError::UnknownCommand)
    }
}

/// What a request of bytes `b` asks for: the command that the text before
/// the first newline names.
pub open spec fn request_result(b: Seq<u8>) -> Result<Command, ProtocolError> {
    if !(exists|i: int| is_first_newline(b, i)) {
        Err(ProtocolError::NoNewline)
    } else {
        let i = choose|i: int| is_first_newline(b, i);
        if i == 0 {
            Err(ProtocolError::EmptyCommand)
        } else if !valid_utf8(b.take(i)) {
            Err(ProtocolError::NotText)
        } else {
            command_of(decode_utf8(b.take(i)))
        }
    }
}

/// The command that the text `line` names.
pub fn parse_command(line: &String) -> (r: Result<Command, ProtocolError>)
    ensures
        r == command_of(line@),
{
    if *line == String::from_str("GET INFO") {
        Ok(Command::GetInfo)
    } else if *line == String::from_str("READY") {
        Ok(Command::Ready)
    } else if *line == String::from_str("REMIND") {
        Ok(Command::Remind)
    } else {
        Err(ProtocolError::UnknownCommand)
    }
}

/// Reads the command of a request: the text before the first newline.
pub fn parse_request(bytes: &[u8]) -> (r: Result<Command, ProtocolError>)
    ensures
        r == request_result(bytes@),
{
    let mut i: usize = 0;
    while i < bytes.len() && bytes[i] != NEWLINE
        invariant
            0 <= i <= bytes.len(),
            forall|j: int| 0 <= j < i ==> bytes@[j] != NEWLINE,
        decreases bytes.len() - i,
    {
        i = i + 1;
    }
    if i == bytes.len() {
        assert(!(exists|k: int| is_first_newline(bytes@, k)));
        return Err(ProtocolError::NoNewline);
    }
    assert(is_first_newline(bytes@, i as int));
    assert(forall|k: int| is_first_newline(bytes@, k) ==> k == i);
    if i == 0 {
        return Err(ProtocolError::EmptyCommand);
    }
    let (line, _) = bytes.split_at(i);
    assert(line@ == bytes@.take(i as int));
    match decode_text(line) {
        None => Err(ProtocolError::NotText),
        Some(text) => parse_command(&text),
    }
}

/// A server's answer to one command.
pub struct Reply {
    /// The action to put on the scheduler's queue, if any.
    pub action: Option<ControlAction>,
    /// The response body.
    pub body: String,
}

/// `r` is the answer to `cmd` given the published `info` at `now`.
pub open spec fn answers(r: Reply, cmd: Command, info: CycleInfo, config: Config, now: int) -> bool {
    match cmd {
        Command::GetInfo => {
            &&& r.action is None
            &&& r.body@ == signed_decimal(spec_remaining_seconds(info, config, now))
        },
        Command::Ready => {
            &&& r.action == Some(ControlAction::Acknowledge)
            &&& r.body@ == "OK"@
        },
        Command::Remind => {
            &&& r.action == Some(ControlAction::Snooze)
            &&& r.body@ == "OK"@
        },
    }
}

/// Answers `cmd` against the published `info` at `now` (milliseconds).
pub fn reply(cmd: Command, info: &CycleInfo, config: &Config, now: u64) -> (r: Reply)
    requires
        config.wf(),
    ensures
        answers(r, cmd, *info, *config, now as int),
{
    match cmd {
        Command::GetInfo => Reply {
            action: None,
            body: decimal_text(remaining_seconds(info, config, now)),
        },
        Command::Ready => Reply {
            action: Some(ControlAction::Acknowledge),
            body: String::from_str("OK"),
        },
        Command::Remind => Reply {
            action: Some(ControlAction::Snooze),
            body: String::from_str("OK"),
        },
    }
}

/// Serves one request: the answer to its command, or why it was rejected.
pub fn handle_request(bytes: &[u8], info: &CycleInfo, config: &Config, now: u64) -> (r: Result<
    Reply,
    ProtocolError,
>)
    requires
        config.wf(),
    ensures
        request_result(bytes@) matches Ok(cmd) ==> r matches Ok(rep) && answers(
            rep,
            cmd,
            *info,
            *config,
            now as int,
        ),
        request_result(bytes@) matches Err(e) ==> r matches Err(e2) && e2 == e,
{
    match parse_request(bytes) {
        Ok(cmd) => Ok(reply(cmd, info, config, now)),
        Err(e) => Err(e),
    }
}

/// The body answered to `GET INFO` is a signed decimal integer that reads
/// back as the seconds left in the current phase.
pub proof fn lemma_info_reply_reads_back(r: Reply, info: CycleInfo, config: Config, now: int)
    requires
        answers(r, Command::GetInfo, info, config, now),
    ensures
        decimal_value(r.body@) == Some(spec_remaining_seconds(info, config, now)),
{
    lemma_decimal_round_trip(spec_remaining_seconds(info, config, now));
}

} // verus!
