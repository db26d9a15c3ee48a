//! The decisions of the actor runtime: what an actor does with what its
//! loop sees, and the count of requests that are under way.

use vstd::prelude::*;

verus! {

/// Whether the actor system is still serving requests or shutting down.
#[derive(Clone, Copy, Debug, PartialEq, Eq, Structural)]
pub enum ProgramState {
    Running,
    Closing,
}

/// What the loop of an actor may see.
#[derive(Debug)]
pub enum LoopEvent<I> {
    /// A message from the mailbox.
    Message(I),
    /// The program state has changed: the system shuts down.
    StateChanged,
    /// The mailbox and the program state are both gone.
    Disconnected,
}

/// What the loop of an actor does next.
#[derive(Debug)]
pub enum LoopAction<I> {
    /// Answer the message, send the reply, and go on.
    Answer(I),
    /// Leave the loop and run the actor's closing hook. Messages that
    /// still wait in the mailbox are not answered.
    Close,
}

/// Decides what the loop of an actor does with what it sees: a message is
/// answered, anything else ends the loop.
pub fn next_action<I>(event: LoopEvent<I>) -> (r: LoopAction<I>)
    ensures
        r == match event {
            LoopEvent::Message(input) => LoopAction::Answer(input),
            LoopEvent::StateChanged => LoopAction::Close,
            LoopEvent::Disconnected => LoopAction::Close,
        },
{
    match event {
        LoopEvent::Message(input) => LoopAction::Answer(input),
        LoopEvent::StateChanged => LoopAction::Close,
        LoopEvent::Disconnected => LoopAction::Close,
    }
}

/// What happens to the count of requests under way.
#[derive(Clone, Copy, Debug, PartialEq, Eq, Structural)]
pub enum Tick {
    /// A request was put into a mailbox.
    Enqueued,
    /// The reply to a request has come.
    Resolved,
}

/// What a tick adds to the count.
pub open spec fn weight(t: Tick) -> int {
    match t {
        Tick::Enqueued => 1,
        Tick::Resolved => -1,
    }
}

/// What a row of ticks adds to the count.
pub open spec fn tally(ticks: Seq<Tick>) -> int
    decreases ticks.len(),
{
    if ticks.len() == 0 {
        0
    } else {
        tally(ticks.drop_last()) + weight(ticks.last())
    }
}

/// The tally of two rows of ticks, one after the other, is the sum of both.
pub proof fn lemma_tally_add(a: Seq<Tick>, b: Seq<Tick>)
    ensures
        tally(a + b) == tally(a) + tally(b),
    decreases b.len(),
{
    if b.len() == 0 {
    } else {
        lemma_tally_add(a, b.drop_last());
        assert((a + b).drop_last() =~= a + b.drop_last());
    }
}

/// A request leaves the count as it found it: once its reply has come,
/// the count is what it would be had the request never been made,
/// whatever else went on before, meanwhile and afterwards.
pub proof fn lemma_request_leaves_no_trace(before: Seq<Tick>, during: Seq<Tick>, after: Seq<Tick>)
    ensures
        tally(before + seq![Tick::Enqueued] + during + seq![Tick::Resolved] + after) == tally(
            before + during + after,
        ),
{
    let one = seq![Tick::Enqueued];
    let other = seq![Tick::Resolved];
    lemma_tally_add(before + one + during + other, after);
    lemma_tally_add(before + one + during, other);
    lemma_tally_add(before + one, during);
    lemma_tally_add(before, one);
    lemma_tally_add(before + during, after);
    lemma_tally_add(before, during);
    assert(tally(one) == 1) by {
        reveal_with_fuel(tally, 2);
    }
    assert(tally(other) == -1) by {
        reveal_with_fuel(tally, 2);
    }
}

/// The count of requests that are under way: put into a mailbox, and not
/// yet replied to.
#[derive(Debug)]
pub struct InFlight {
    count: usize,
}

impl View for InFlight {
    type V = nat;

    closed spec fn view(&self) -> nat {
        self.count as nat
    }
}

impl InFlight {
    /// A count of zero.
    pub fn new() -> (r: InFlight)
        ensures
            r@ == 0,
    {
        InFlight { count: 0 }
    }

    /// The count.
    pub fn count(&self) -> (r: usize)
        ensures
            r == self@,
    {
        self.count
    }

    /// A request is put into a mailbox: the count grows by one.
    pub fn enqueued(&mut self)
        requires
            old(self)@ < usize::MAX,
        ensures
            final(self)@ == old(self)@ + weight(Tick::Enqueued),
    {
        self.count = self.count + 1;
    }

    /// The reply to a request has come: the count falls by one. Every
    /// reply follows its request, so the count is above zero then.
    pub fn resolved(&mut self)
        requires
            old(self)@ > 0,
        ensures
            final(self)@ == old(self)@ + weight(Tick::Resolved),
    {
        self.count = self.count - 1;
    }

    /// Whether no request is under way.
    pub fn is_idle(&self) -> (r: bool)
        ensures
            r == (self@ == 0),
    {
        self.count == 0
    }
}

} // verus!
