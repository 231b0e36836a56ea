//! The input writer: the one consumer of the command channel, which
//! decides what is written to the child process and when writing ends.

use crate::channel::{
    commands_of, lemma_first_in_first_out, ChannelOp, CommandChannel, History, Taken,
};
use crate::command::{normalize_command, normalized, normalized_all};
use vstd::prelude::*;

verus! {

/// What the writer asks its driver to do next.
#[derive(Debug)]
pub enum WriterAction {
    /// Nothing is queued. Wait until a command has been submitted or the
    /// channel has been closed, then ask again.
    Wait,
    /// Write this text to the child's input stream, whole, and flush the
    /// stream. Then ask again; if the write or the flush failed, report the
    /// failure first.
    Write(String),
    /// The writer has ended. Nothing more is to be written.
    Stop,
}

/// The input writer. It runs until the channel is drained or a write
/// fails, and never starts again.
pub struct InputWriter {
    stopped: bool,
}

impl InputWriter {
    /// Whether the writer has ended.
    pub closed spec fn stopped(&self) -> bool {
        self.stopped
    }

    /// A running writer.
    pub fn new() -> (r: Self)
        ensures
            !r.stopped(),
    {
        InputWriter { stopped: false }
    }

    /// Whether the writer has ended.
    pub fn is_stopped(&self) -> (r: bool)
        ensures
            r == self.stopped(),
    {
        self.stopped
    }

    /// Decides the writer's next action. A running writer takes the
    /// oldest command from the channel and asks for it to be written,
    /// normalized; it waits when nothing is queued, and ends when the
    /// channel is drained. A writer that has ended leaves the channel
    /// alone.
    pub fn next_action(&mut self, channel: &mut CommandChannel) -> (r: WriterAction)
        ensures
            old(self).stopped() ==> {
                &&& r is Stop
                &&& final(self).stopped()
                &&& final(channel)@ == old(channel)@
            },
            !old(self).stopped() ==> {
                &&& final(channel)@ == old(channel)@.after_take()
                &&& final(self).stopped() == (old(channel)@.queue.len() == 0 && old(
                    channel,
                )@.closed)
                &&& old(channel)@.queue.len() > 0 ==> (r matches WriterAction::Write(text) && text@
                    == normalized(old(channel)@.queue[0]))
                &&& old(channel)@.queue.len() == 0 && !old(channel)@.closed ==> r is Wait
                &&& old(channel)@.queue.len() == 0 && old(channel)@.closed ==> r is Stop
            },
    {
        if self.stopped {
            return WriterAction::Stop;
        }
        match channel.take() {
            Taken::Command(cmd) => WriterAction::Write(normalize_command(cmd)),
            Taken::Empty => WriterAction::Wait,
            Taken::Drained => {
                self.stopped = true;
                WriterAction::Stop
            },
        }
    }

    /// Records that a write or a flush failed. The writer ends for good.
    pub fn fail(&mut self)
        ensures
            final(self).stopped(),
    {
        self.stopped = true;
    }
}

/// The texts that the writer asks to be written for the commands it has
/// taken, in the order of taking.
pub open spec fn written_for(h: History) -> Seq<Seq<char>> {
    normalized_all(commands_of(h.taken))
}

/// End to end. Whatever operations are made on a new channel that the
/// writer drains: the texts written to the child are the accepted
/// commands, normalized, in the order of acceptance, as far as they have
/// been taken. Each text is one whole command; commands submitted one
/// after the other are written one after the other.
pub proof fn lemma_written_in_order_of_acceptance(capacity: nat, ops: Seq<ChannelOp>)
    requires
        capacity > 0,
    ensures
        ({
            let h = History::fresh(capacity).run(ops);
            &&& written_for(h).len() == h.taken.len() <= h.accepted.len()
            &&& forall|i: int|
                0 <= i < h.taken.len() ==> #[trigger] written_for(h)[i] == normalized(
                    h.accepted[i].1,
                )
        }),
{
    lemma_first_in_first_out(capacity, ops);
}

} // verus!
