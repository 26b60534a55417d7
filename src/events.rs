use vstd::prelude::*;

verus! {

/// A change in the state of a joint's playback buffer, as its controller reports it.
#[derive(Clone, Copy, PartialEq, Eq, Debug, Structural)]
pub enum ServoBufferEvent {
    /// The buffer has room for this many more targets.
    Drain(i16),
    /// The buffer has played out and the joint is idle.
    Empty,
}

/// The kind of event a waiter waits for.
#[derive(Clone, Copy, PartialEq, Eq, Debug, Structural)]
pub enum BufferWait {
    Drain,
    Empty,
}

/// Where a wait stands.
#[derive(Clone, Copy, PartialEq, Eq, Debug, Structural)]
pub enum WaitOutcome {
    /// Nothing that ends the wait has been seen yet.
    Pending,
    /// A wait for `Drain` saw one announcing this much room.
    Drained(i16),
    /// A wait for `Empty` saw one.
    Emptied,
    /// The cancellation signal fired first.
    Cancelled,
}

/// What a waiter observes: an event on its channel, or its cancellation signal.
#[derive(Clone, Copy, PartialEq, Eq, Debug, Structural)]
pub enum WaitSignal {
    Event(ServoBufferEvent),
    Cancel,
}

/// One observation applied to a wait: a settled wait stays as it is,
/// cancellation settles it as `Cancelled`, an event of the awaited kind settles
/// it with that event, and an event of the other kind is ignored.
pub open spec fn wait_step(wait: BufferWait, outcome: WaitOutcome, s: WaitSignal) -> WaitOutcome {
    if outcome != WaitOutcome::Pending {
        outcome
    } else {
        match s {
            WaitSignal::Cancel => WaitOutcome::Cancelled,
            WaitSignal::Event(ServoBufferEvent::Drain(need)) => if wait == BufferWait::Drain {
                WaitOutcome::Drained(need)
            } else {
                WaitOutcome::Pending
            },
            WaitSignal::Event(ServoBufferEvent::Empty) => if wait == BufferWait::Empty {
                WaitOutcome::Emptied
            } else {
                WaitOutcome::Pending
            },
        }
    }
}

/// Where a wait stands after a sequence of observations.
pub open spec fn run_wait(wait: BufferWait, outcome: WaitOutcome, ss: Seq<WaitSignal>) -> WaitOutcome
    decreases ss.len(),
{
    if ss.len() == 0 {
        outcome
    } else {
        run_wait(wait, wait_step(wait, outcome, ss[0]), ss.drop_first())
    }
}

/// One task waiting on a joint's channel for an event of one kind.
pub struct BufferWaiter {
    wait: BufferWait,
    outcome: WaitOutcome,
}

impl BufferWaiter {
    pub closed spec fn awaited(&self) -> BufferWait {
        self.wait
    }

    pub closed spec fn state(&self) -> WaitOutcome {
        self.outcome
    }

    /// A fresh wait for events of kind `wait`.
    pub fn new(wait: BufferWait) -> (r: BufferWaiter)
        ensures
            r.awaited() == wait,
            r.state() == WaitOutcome::Pending,
    {
        BufferWaiter { wait, outcome: WaitOutcome::Pending }
    }

    /// Applies one observation and returns where the wait now stands.
    pub fn observe(&mut self, s: WaitSignal) -> (r: WaitOutcome)
        ensures
            final(self).awaited() == old(self).awaited(),
            final(self).state() == wait_step(old(self).awaited(), old(self).state(), s),
            r == final(self).state(),
    {
        let next = match self.outcome {
            WaitOutcome::Pending => match s {
                WaitSignal::Cancel => WaitOutcome::Cancelled,
                WaitSignal::Event(ServoBufferEvent::Drain(need)) => match self.wait {
                    BufferWait::Drain => WaitOutcome::Drained(need),
                    BufferWait::Empty => WaitOutcome::Pending,
                },
                WaitSignal::Event(ServoBufferEvent::Empty) => match self.wait {
                    BufferWait::Empty => WaitOutcome::Emptied,
                    BufferWait::Drain => WaitOutcome::Pending,
                },
            },
            settled => settled,
        };
        self.outcome = next;
        next
    }

    /// Where the wait stands.
    pub fn outcome(&self) -> (r: WaitOutcome)
        ensures
            r == self.state(),
    {
        self.outcome
    }
}

proof fn lemma_settled_stays(wait: BufferWait, outcome: WaitOutcome, ss: Seq<WaitSignal>)
    requires
        outcome != WaitOutcome::Pending,
    ensures
        run_wait(wait, outcome, ss) == outcome,
    decreases ss.len(),
{
    if ss.len() > 0 {
        lemma_settled_stays(wait, outcome, ss.drop_first());
    }
}

proof fn lemma_run_split(wait: BufferWait, outcome: WaitOutcome, ss: Seq<WaitSignal>, k: int)
    requires
        0 <= k <= ss.len(),
    ensures
        run_wait(wait, outcome, ss) == run_wait(
            wait,
            run_wait(wait, outcome, ss.take(k)),
            ss.skip(k),
        ),
    decreases k,
{
    if k > 0 {
        lemma_run_split(wait, wait_step(wait, outcome, ss[0]), ss.drop_first(), k - 1);
        assert(ss.take(k).drop_first() =~= ss.drop_first().take(k - 1));
        assert(ss.skip(k) =~= ss.drop_first().skip(k - 1));
    } else {
        assert(ss.skip(0) =~= ss);
    }
}

/// An event of the other kind never ends a wait: a wait for `Empty` never
/// settles with a `Drain`, a wait for `Drain` never settles on `Empty`, and
/// while only events of the other kind arrive the wait stays pending.
pub proof fn lemma_wait_kind_filter(wait: BufferWait, ss: Seq<WaitSignal>)
    ensures
        wait == BufferWait::Empty ==> !(run_wait(wait, WaitOutcome::Pending, ss) is Drained),
        wait == BufferWait::Drain ==> run_wait(wait, WaitOutcome::Pending, ss)
            != WaitOutcome::Emptied,
        (forall|i: int|
            0 <= i < ss.len() ==> match #[trigger] ss[i] {
                WaitSignal::Event(ServoBufferEvent::Drain(_)) => wait == BufferWait::Empty,
                WaitSignal::Event(ServoBufferEvent::Empty) => wait == BufferWait::Drain,
                WaitSignal::Cancel => false,
            }) ==> run_wait(wait, WaitOutcome::Pending, ss) == WaitOutcome::Pending,
    decreases ss.len(),
{
    if ss.len() > 0 {
        let o = wait_step(wait, WaitOutcome::Pending, ss[0]);
        if o == WaitOutcome::Pending {
            lemma_wait_kind_filter(wait, ss.drop_first());
            assert forall|i: int| 0 <= i < ss.drop_first().len() implies ss.drop_first()[i]
                == ss[i + 1] by {}
        } else {
            lemma_settled_stays(wait, o, ss.drop_first());
        }
    }
}

/// Cancelling a wait that is still pending settles it as `Cancelled`, and no
/// observation after the cancellation changes that.
pub proof fn lemma_cancel_settles(wait: BufferWait, ss: Seq<WaitSignal>, k: int)
    requires
        0 <= k < ss.len(),
        ss[k] == WaitSignal::Cancel,
        run_wait(wait, WaitOutcome::Pending, ss.take(k)) == WaitOutcome::Pending,
    ensures
        run_wait(wait, WaitOutcome::Pending, ss) == WaitOutcome::Cancelled,
{
    lemma_run_split(wait, WaitOutcome::Pending, ss, k);
    let rest = ss.skip(k);
    assert(rest[0] == WaitSignal::Cancel);
    lemma_settled_stays(wait, WaitOutcome::Cancelled, rest.drop_first());
}

} // verus!
