//! The terminal forwarder: what becomes of a line that the operator
//! typed.

use crate::channel::{CommandChannel, Submission};
use vstd::prelude::*;

verus! {

/// What reading the operator's console gave.
#[derive(Debug)]
pub enum ConsoleRead {
    /// A line, as it was read.
    Line(String),
    /// The console has ended, or reading it failed.
    End,
}

/// What the forwarder asks its driver to do next.
#[derive(Debug)]
pub enum ForwarderAction {
    /// The line was queued. Read the next one.
    ReadNext,
    /// The channel is full. Wait until a command has been taken, then
    /// forward this line again.
    WaitForRoom(String),
    /// The console has ended or the channel is closed. Forward nothing
    /// more.
    Stop,
}

/// Classifies the answer of a read of the console: a line when at least
/// one byte was read, the end when none was read or the read failed.
pub fn console_read(bytes_read: Option<usize>, line: String) -> (r: ConsoleRead)
    ensures
        bytes_read matches Some(n) && n > 0 ==> r == ConsoleRead::Line(line),
        !(bytes_read matches Some(n) && n > 0) ==> r == ConsoleRead::End,
{
    match bytes_read {
        Some(n) => {
            if n > 0 {
                ConsoleRead::Line(line)
            } else {
                ConsoleRead::End
            }
        },
        None => ConsoleRead::End,
    }
}

/// Forwards what was read from the console: submits a line to the
/// channel as it is, and stops at the end of the console or when the
/// channel is closed.
pub fn forward(channel: &mut CommandChannel, read: ConsoleRead) -> (r: ForwarderAction)
    ensures
        read matches ConsoleRead::Line(line) ==> {
            &&& final(channel)@ == old(channel)@.after_submit(line@)
            &&& old(channel)@.accepts() ==> r == ForwarderAction::ReadNext
            &&& !old(channel)@.closed && old(channel)@.is_full() ==> r
                == ForwarderAction::WaitForRoom(line)
            &&& old(channel)@.closed ==> r == ForwarderAction::Stop
        },
        read is End ==> r == ForwarderAction::Stop && final(channel)@ == old(channel)@,
{
    match read {
        ConsoleRead::Line(line) => match channel.submit(line) {
            Submission::Accepted => ForwarderAction::ReadNext,
            Submission::Full(line) => ForwarderAction::WaitForRoom(line),
            Submission::Closed(_) => ForwarderAction::Stop,
        },
        ConsoleRead::End => ForwarderAction::Stop,
    }
}

} // verus!
