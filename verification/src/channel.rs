//! The command channel: a bounded first-in first-out queue of commands
//! on their way to the child process.
//!
//! Producers submit, one consumer takes. A submission to a full channel is
//! handed back, so that the producer can wait for room and submit again;
//! nothing is ever dropped or reordered inside the channel.

use std::collections::VecDeque;
use vstd::prelude::*;

verus! {

/// The capacity of a channel made without an explicit one.
pub const DEFAULT_CAPACITY: usize = 1000;

/// What a channel is, as a value: the queued commands, oldest first, the
/// fixed capacity, and whether the channel has been closed.
pub struct ChannelState {
    pub queue: Seq<Seq<char>>,
    pub capacity: nat,
    pub closed: bool,
}

impl ChannelState {
    /// A new, open, empty channel.
    pub open spec fn fresh(capacity: nat) -> ChannelState {
        ChannelState { queue: Seq::empty(), capacity, closed: false }
    }

    /// The capacity is positive and never exceeded.
    pub open spec fn wf(self) -> bool {
        self.capacity > 0 && self.queue.len() <= self.capacity
    }

    /// No room for another command.
    pub open spec fn is_full(self) -> bool {
        self.queue.len() >= self.capacity
    }

    /// Whether a submission made now is accepted.
    pub open spec fn accepts(self) -> bool {
        !self.closed && !self.is_full()
    }

    /// The channel after `cmd` was submitted: `cmd` joins the end of the
    /// queue when it is accepted, otherwise nothing changes.
    pub open spec fn after_submit(self, cmd: Seq<char>) -> ChannelState {
        if self.accepts() {
            ChannelState { queue: self.queue.push(cmd), ..self }
        } else {
            self
        }
    }

    /// The channel after the consumer took from it: the oldest command
    /// has left, or nothing changes when there was none.
    pub open spec fn after_take(self) -> ChannelState {
        if self.queue.len() > 0 {
            ChannelState { queue: self.queue.drop_first(), ..self }
        } else {
            self
        }
    }

    /// The channel after it was closed. What is queued stays queued.
    pub open spec fn after_close(self) -> ChannelState {
        ChannelState { closed: true, ..self }
    }
}

/// The answer to a submission.
#[derive(Debug)]
pub enum Submission {
    /// The command was queued.
    Accepted,
    /// The channel is full. The command is handed back; the producer is
    /// to wait until a command has been taken and submit it again.
    Full(String),
    /// The channel is closed. The command is handed back and will never
    /// be accepted.
    Closed(String),
}

/// The answer to a take.
#[derive(Debug)]
pub enum Taken {
    /// The oldest queued command.
    Command(String),
    /// Nothing is queued, but the channel is open: more may come.
    Empty,
    /// Nothing is queued and the channel is closed: nothing will come.
    Drained,
}

/// A bounded first-in first-out queue of commands.
pub struct CommandChannel {
    queue: VecDeque<String>,
    capacity: usize,
    closed: bool,
}

impl View for CommandChannel {
    type V = ChannelState;

    closed spec fn view(&self) -> ChannelState {
        ChannelState {
            queue: self.queue.deep_view(),
            capacity: self.capacity as nat,
            closed: self.closed,
        }
    }
}

impl CommandChannel {
    #[verifier::type_invariant]
    spec fn inv(&self) -> bool {
        self.capacity > 0 && self.queue@.len() <= self.capacity
    }

    /// An open, empty channel that holds at most `capacity` commands.
    pub fn new(capacity: usize) -> (r: Self)
        requires
            capacity > 0,
        ensures
            r@ == ChannelState::fresh(capacity as nat),
    {
        let r = CommandChannel { queue: VecDeque::new(), capacity, closed: false };
        assert(r.queue.deep_view() =~= Seq::<Seq<char>>::empty());
        r
    }

    /// An open, empty channel of the default capacity.
    pub fn with_default_capacity() -> (r: Self)
        ensures
            r@ == ChannelState::fresh(DEFAULT_CAPACITY as nat),
    {
        CommandChannel::new(DEFAULT_CAPACITY)
    }

    /// The fixed capacity.
    pub fn capacity(&self) -> (r: usize)
        ensures
            r == self@.capacity,
            r > 0,
    {
        proof {
            use_type_invariant(self);
        }
        self.capacity
    }

    /// The number of queued commands.
    pub fn len(&self) -> (r: usize)
        ensures
            r == self@.queue.len(),
            r <= self@.capacity,
    {
        proof {
            use_type_invariant(self);
        }
        self.queue.len()
    }

    /// Whether nothing is queued.
    pub fn is_empty(&self) -> (r: bool)
        ensures
            r == (self@.queue.len() == 0),
    {
        self.queue.len() == 0
    }

    /// Whether there is no room for another command.
    pub fn is_full(&self) -> (r: bool)
        ensures
            r == self@.is_full(),
    {
        self.queue.len() >= self.capacity
    }

    /// Whether the channel has been closed.
    pub fn is_closed(&self) -> (r: bool)
        ensures
            r == self@.closed,
    {
        self.closed
    }

    /// Submits a command. It joins the end of the queue when the channel
    /// is open and has room; otherwise it is handed back and the channel
    /// is left as it was.
    pub fn submit(&mut self, cmd: String) -> (r: Submission)
        ensures
            final(self)@ == old(self)@.after_submit(cmd@),
            final(self)@.wf(),
            old(self)@.closed ==> r == Submission::Closed(cmd),
            !old(self)@.closed && old(self)@.is_full() ==> r == Submission::Full(cmd),
            old(self)@.accepts() ==> r == Submission::Accepted,
    {
        proof {
            use_type_invariant(&*self);
        }
        if self.closed {
            Submission::Closed(cmd)
        } else if self.queue.len() >= self.capacity {
            Submission::Full(cmd)
        } else {
            let mut queue: VecDeque<String> = VecDeque::new();
            std::mem::swap(&mut queue, &mut self.queue);
            let ghost before = queue.deep_view();
            queue.push_back(cmd);
            assert(queue.deep_view() =~= before.push(cmd@));
            self.queue = queue;
            Submission::Accepted
        }
    }

    /// Takes the oldest queued command.
    pub fn take(&mut self) -> (r: Taken)
        ensures
            final(self)@ == old(self)@.after_take(),
            final(self)@.wf(),
            old(self)@.queue.len() > 0 ==> (r matches Taken::Command(cmd) && cmd@ == old(
                self,
            )@.queue[0]),
            old(self)@.queue.len() == 0 && !old(self)@.closed ==> r == Taken::Empty,
            old(self)@.queue.len() == 0 && old(self)@.closed ==> r == Taken::Drained,
    {
        proof {
            use_type_invariant(&*self);
        }
        let mut queue: VecDeque<String> = VecDeque::new();
        std::mem::swap(&mut queue, &mut self.queue);
        let ghost before = queue.deep_view();
        let oldest = queue.pop_front();
        assert(oldest is Some ==> queue.deep_view() =~= before.drop_first());
        self.queue = queue;
        match oldest {
            Some(cmd) => Taken::Command(cmd),
            None => if self.closed {
                Taken::Drained
            } else {
                Taken::Empty
            },
        }
    }

    /// Closes the channel. From now on every submission is handed back;
    /// what is queued can still be taken. Closing a closed channel changes
    /// nothing.
    pub fn close(&mut self)
        ensures
            final(self)@ == old(self)@.after_close(),
            final(self)@.wf(),
    {
        proof {
            use_type_invariant(&*self);
        }
        self.closed = true;
    }
}

/// One operation on a channel, as a value. A submission carries the
/// number of the producer that makes it.
pub enum ChannelOp {
    Submit { producer: nat, cmd: Seq<char> },
    Take,
    Close,
}

/// A channel together with the history of what went in and out of it.
/// Every command carries the number of the producer that submitted it.
pub struct History {
    /// The capacity of the channel.
    pub capacity: nat,
    /// Whether the channel is closed.
    pub closed: bool,
    /// The commands now in the queue, oldest first.
    pub pending: Seq<(nat, Seq<char>)>,
    /// Every command that was accepted, in the order of acceptance.
    pub accepted: Seq<(nat, Seq<char>)>,
    /// Every command that was taken, in the order of taking.
    pub taken: Seq<(nat, Seq<char>)>,
}

/// The commands of a list of submissions, without their producers.
pub open spec fn commands_of(entries: Seq<(nat, Seq<char>)>) -> Seq<Seq<char>> {
    Seq::new(entries.len(), |i: int| entries[i].1)
}

/// The commands of `entries` that `producer` submitted, in order.
pub open spec fn from_producer(entries: Seq<(nat, Seq<char>)>, producer: nat) -> Seq<Seq<char>>
    decreases entries.len(),
{
    if entries.len() == 0 {
        Seq::empty()
    } else if entries.last().0 == producer {
        from_producer(entries.drop_last(), producer).push(entries.last().1)
    } else {
        from_producer(entries.drop_last(), producer)
    }
}

impl History {
    /// The history of a new channel: nothing went in or out yet.
    pub open spec fn fresh(capacity: nat) -> History {
        History {
            capacity,
            closed: false,
            pending: Seq::empty(),
            accepted: Seq::empty(),
            taken: Seq::empty(),
        }
    }

    /// The channel that this history has led to.
    pub open spec fn channel(self) -> ChannelState {
        ChannelState {
            queue: commands_of(self.pending),
            capacity: self.capacity,
            closed: self.closed,
        }
    }

    /// The history after one more operation.
    pub open spec fn step(self, op: ChannelOp) -> History {
        match op {
            ChannelOp::Submit { producer, cmd } => {
                if self.channel().accepts() {
                    History {
                        pending: self.pending.push((producer, cmd)),
                        accepted: self.accepted.push((producer, cmd)),
                        ..self
                    }
                } else {
                    self
                }
            },
            ChannelOp::Take => {
                if self.pending.len() > 0 {
                    History {
                        pending: self.pending.drop_first(),
                        taken: self.taken.push(self.pending[0]),
                        ..self
                    }
                } else {
                    self
                }
            },
            ChannelOp::Close => History { closed: true, ..self },
        }
    }

    /// The history after a sequence of operations, made one after the
    /// other.
    pub open spec fn run(self, ops: Seq<ChannelOp>) -> History
        decreases ops.len(),
    {
        if ops.len() == 0 {
            self
        } else {
            self.run(ops.drop_last()).step(ops.last())
        }
    }
}

/// The channel of a history moves exactly as `submit`, `take` and `close`
/// move a channel.
pub proof fn lemma_step_is_channel_step(h: History, op: ChannelOp)
    ensures
        h.step(op).channel() == match op {
            ChannelOp::Submit { producer, cmd } => h.channel().after_submit(cmd),
            ChannelOp::Take => h.channel().after_take(),
            ChannelOp::Close => h.channel().after_close(),
        },
{
    match op {
        ChannelOp::Submit { producer, cmd } => {
            if h.channel().accepts() {
                assert(commands_of(h.pending.push((producer, cmd))) =~= commands_of(
                    h.pending,
                ).push(cmd));
            }
        },
        ChannelOp::Take => {
            if h.pending.len() > 0 {
                assert(commands_of(h.pending.drop_first()) =~= commands_of(
                    h.pending,
                ).drop_first());
            }
        },
        ChannelOp::Close => {},
    }
}

/// The commands of one producer in a list that is made of two parts are
/// those of the first part followed by those of the second.
pub proof fn lemma_from_producer_concat(
    a: Seq<(nat, Seq<char>)>,
    b: Seq<(nat, Seq<char>)>,
    producer: nat,
)
    ensures
        from_producer(a + b, producer) == from_producer(a, producer) + from_producer(b, producer),
    decreases b.len(),
{
    if b.len() > 0 {
        lemma_from_producer_concat(a, b.drop_last(), producer);
        assert((a + b).drop_last() =~= a + b.drop_last());
    }
}

/// First in, first out. Whatever operations are made on a new channel,
/// in whatever order: the commands taken so far, followed by the commands
/// still queued, are the accepted commands in the order of acceptance.
/// So commands leave in the order in which they were accepted, each one
/// whole, none lost and none twice. The capacity is fixed and never
/// exceeded.
pub proof fn lemma_first_in_first_out(capacity: nat, ops: Seq<ChannelOp>)
    requires
        capacity > 0,
    ensures
        ({
            let h = History::fresh(capacity).run(ops);
            &&& h.taken + h.pending == h.accepted
            &&& h.taken == h.accepted.take(h.taken.len() as int)
            &&& h.capacity == capacity
            &&& h.channel().wf()
        }),
    decreases ops.len(),
{
    if ops.len() > 0 {
        lemma_first_in_first_out(capacity, ops.drop_last());
    }
}

/// A channel is closed once and for all: after it was closed, whatever
/// operations follow, it stays closed and accepts nothing more, while
/// what was queued can still be taken.
pub proof fn lemma_closed_for_good(h: History, ops: Seq<ChannelOp>)
    requires
        h.closed,
    ensures
        h.run(ops).closed,
        h.run(ops).accepted == h.accepted,
    decreases ops.len(),
{
    if ops.len() > 0 {
        lemma_closed_for_good(h, ops.drop_last());
    }
}

/// A full channel pushes back: while no command is taken, a submission
/// to a full channel changes nothing, however often it is made.
pub proof fn lemma_full_channel_pushes_back(channel: ChannelState, cmd: Seq<char>)
    requires
        channel.is_full(),
    ensures
        channel.after_submit(cmd) == channel,
        channel.wf() && !channel.closed ==> channel.after_take().accepts(),
{
}

/// Per-producer order. Whatever operations are made on a new channel,
/// with the submissions of any number of producers interleaved in any
/// way: the commands of one producer that were taken, followed by those
/// of that producer still queued, are that producer's accepted commands
/// in the order in which it submitted them.
pub proof fn lemma_producer_order_kept(capacity: nat, ops: Seq<ChannelOp>, producer: nat)
    requires
        capacity > 0,
    ensures
        ({
            let h = History::fresh(capacity).run(ops);
            from_producer(h.taken, producer) + from_producer(h.pending, producer)
                == from_producer(h.accepted, producer)
        }),
{
    let h = History::fresh(capacity).run(ops);
    lemma_first_in_first_out(capacity, ops);
    lemma_from_producer_concat(h.taken, h.pending, producer);
}

} // verus!
