use vstd::prelude::*;

verus! {

/// Number of targets a joint's playback buffer holds; the first window of a
/// push is this large.
pub const BUFFER_CAPACITY: usize = 20;

/// What a push waits for next, or how it ended.
#[derive(Clone, Copy, PartialEq, Eq, Debug, Structural)]
pub enum PushWait {
    /// Targets remain: wait for the controller to report free room.
    Drain,
    /// Every target is published: wait for the buffer to play out.
    Empty,
    /// The buffer reported empty after every target was published.
    Finished,
    /// The push was cancelled; published windows stay in the buffer.
    Cancelled,
}

/// What a push learns while it waits.
#[derive(Clone, Copy, PartialEq, Eq, Debug, Structural)]
pub enum PushEvent {
    /// The controller has room for `need` more targets.
    Drain(i16),
    /// The controller's buffer has played out.
    Empty,
    /// The cancellation signal fired.
    Cancelled,
}

/// The positions `start .. end` of one window of targets.
#[derive(Clone, Copy, PartialEq, Eq, Debug, Structural)]
pub struct Window {
    pub start: usize,
    pub end: usize,
}

/// The work a push hands to its driver: publish the targets at positions
/// `start .. end` (if any) as one push message, then wait as `next` says.
#[derive(Clone, Copy, PartialEq, Eq, Debug, Structural)]
pub struct PushStep {
    pub publish: Option<Window>,
    pub next: PushWait,
}

/// Abstract state of a push: how many targets there are, how many have been
/// published, in how many push messages, and what it waits for.
pub ghost struct PushView {
    pub total: nat,
    pub sent: nat,
    pub publishes: nat,
    pub phase: PushWait,
}

pub open spec fn push_view_wf(v: PushView) -> bool {
    &&& v.sent <= v.total
    &&& v.publishes <= v.sent
    &&& v.phase == PushWait::Drain ==> v.sent < v.total
    &&& (v.phase == PushWait::Empty || v.phase == PushWait::Finished) ==> v.sent == v.total
}

/// Size of the next window: the announced room, but no more than what is left
/// and never negative.
pub open spec fn window_len(need: int, remaining: int) -> nat {
    if need <= 0 {
        0
    } else if need < remaining {
        need as nat
    } else {
        remaining as nat
    }
}

/// The state after publishing `len` more targets from `v`.
pub open spec fn advance(v: PushView, len: nat) -> PushView {
    let sent = v.sent + len;
    PushView {
        total: v.total,
        sent: sent,
        publishes: v.publishes + 1,
        phase: if sent == v.total {
            PushWait::Empty
        } else {
            PushWait::Drain
        },
    }
}

/// A push of `total` targets starts by publishing the first window of at most
/// `BUFFER_CAPACITY` targets (nothing when there are none).
pub open spec fn start_spec(total: nat) -> (PushView, Option<(nat, nat)>) {
    let len = window_len(BUFFER_CAPACITY as int, total as int);
    let idle = PushView { total: total, sent: 0, publishes: 0, phase: PushWait::Drain };
    if len == 0 {
        (PushView { phase: PushWait::Empty, ..idle }, None)
    } else {
        (advance(idle, len), Some((0, len)))
    }
}

/// One event applied to a push: cancellation ends any wait, a `Drain` ends a
/// wait for room, an `Empty` ends a wait for the buffer to play out, and any
/// other event is ignored.
pub open spec fn step_spec(v: PushView, e: PushEvent) -> (PushView, Option<(nat, nat)>) {
    match v.phase {
        PushWait::Finished | PushWait::Cancelled => (v, None),
        _ => match e {
            PushEvent::Cancelled => (PushView { phase: PushWait::Cancelled, ..v }, None),
            PushEvent::Drain(need) => {
                let len = window_len(need as int, v.total - v.sent);
                if v.phase == PushWait::Drain && len > 0 {
                    (advance(v, len), Some((v.sent, v.sent + len)))
                } else {
                    (v, None)
                }
            },
            PushEvent::Empty => {
                if v.phase == PushWait::Empty {
                    (PushView { phase: PushWait::Finished, ..v }, None)
                } else {
                    (v, None)
                }
            },
        },
    }
}

/// The state after a sequence of events.
pub open spec fn run_push(v: PushView, es: Seq<PushEvent>) -> PushView
    decreases es.len(),
{
    if es.len() == 0 {
        v
    } else {
        run_push(step_spec(v, es[0]).0, es.drop_first())
    }
}

/// Every `Drain` in `es` announces at most `BUFFER_CAPACITY` free slots.
pub open spec fn needs_within_capacity(es: Seq<PushEvent>) -> bool {
    forall|i: int|
        0 <= i < es.len() ==> (#[trigger] es[i] matches PushEvent::Drain(n) ==> n
            <= BUFFER_CAPACITY)
}

pub open spec fn publish_view(p: Option<Window>) -> Option<(nat, nat)> {
    match p {
        Some(w) => Some((w.start as nat, w.end as nat)),
        None => None,
    }
}

/// The flow-control decisions of one push of a target sequence into a joint's
/// playback buffer (sliding window paced by `Drain` and `Empty`).
pub struct PushSession {
    total: usize,
    sent: usize,
    publishes: usize,
    phase: PushWait,
}

impl View for PushSession {
    type V = PushView;

    closed spec fn view(&self) -> PushView {
        PushView {
            total: self.total as nat,
            sent: self.sent as nat,
            publishes: self.publishes as nat,
            phase: self.phase,
        }
    }
}

impl PushSession {
    #[verifier::type_invariant]
    closed spec fn inv(&self) -> bool {
        push_view_wf(self@)
    }

    /// Begins a push of `total` targets.
    pub fn start(total: usize) -> (r: (PushSession, PushStep))
        ensures
            r.0@ == start_spec(total as nat).0,
            publish_view(r.1.publish) == start_spec(total as nat).1,
            r.1.next == r.0@.phase,
            push_view_wf(r.0@),
    {
        let len: usize = if BUFFER_CAPACITY < total {
            BUFFER_CAPACITY
        } else {
            total
        };
        if len == 0 {
            let s = PushSession { total, sent: 0, publishes: 0, phase: PushWait::Empty };
            (s, PushStep { publish: None, next: PushWait::Empty })
        } else {
            let phase = if len == total {
                PushWait::Empty
            } else {
                PushWait::Drain
            };
            let s = PushSession { total, sent: len, publishes: 1, phase };
            (s, PushStep { publish: Some(Window { start: 0, end: len }), next: phase })
        }
    }

    /// Applies one event and says what to publish and what to wait for next.
    pub fn on_event(&mut self, e: PushEvent) -> (r: PushStep)
        ensures
            final(self)@ == step_spec(old(self)@, e).0,
            publish_view(r.publish) == step_spec(old(self)@, e).1,
            r.next == final(self)@.phase,
            push_view_wf(final(self)@),
    {
        let (next, r) = self.transition(e);
        *self = next;
        proof {
            use_type_invariant(&*self);
        }
        r
    }

    fn transition(&self, e: PushEvent) -> (r: (PushSession, PushStep))
        ensures
            r.0@ == step_spec(self@, e).0,
            publish_view(r.1.publish) == step_spec(self@, e).1,
            r.1.next == r.0@.phase,
    {
        proof {
            use_type_invariant(self);
        }
        let phase = self.phase;
        let total = self.total;
        let sent = self.sent;
        let publishes = self.publishes;
        let unchanged = PushSession { total, sent, publishes, phase };
        match phase {
            PushWait::Finished => (unchanged, PushStep { publish: None, next: phase }),
            PushWait::Cancelled => (unchanged, PushStep { publish: None, next: phase }),
            _ => match e {
                PushEvent::Cancelled => (
                    PushSession { total, sent, publishes, phase: PushWait::Cancelled },
                    PushStep { publish: None, next: PushWait::Cancelled },
                ),
                PushEvent::Drain(need) => {
                    let remaining: usize = total - sent;
                    let len: usize = if need <= 0 {
                        0
                    } else if (need as usize) < remaining {
                        need as usize
                    } else {
                        remaining
                    };
                    match phase {
                        PushWait::Drain if len > 0 => {
                            let now_sent: usize = sent + len;
                            let next = if now_sent == total {
                                PushWait::Empty
                            } else {
                                PushWait::Drain
                            };
                            (
                                PushSession {
                                    total,
                                    sent: now_sent,
                                    publishes: publishes + 1,
                                    phase: next,
                                },
                                PushStep { publish: Some(Window { start: sent, end: now_sent }), next },
                            )
                        },
                        _ => (unchanged, PushStep { publish: None, next: phase }),
                    }
                },
                PushEvent::Empty => match phase {
                    PushWait::Empty => (
                        PushSession { total, sent, publishes, phase: PushWait::Finished },
                        PushStep { publish: None, next: PushWait::Finished },
                    ),
                    _ => (unchanged, PushStep { publish: None, next: phase }),
                },
            },
        }
    }

    /// What the push waits for now, or how it ended.
    pub fn phase(&self) -> (r: PushWait)
        ensures
            r == self@.phase,
    {
        self.phase
    }
}

/// Each step of a push: a window is published only in answer to `Drain(need)`
/// while waiting for room, starts at the first unpublished target and holds
/// between one and `need` targets; the push finishes only on `Empty` while
/// waiting for the buffer to play out, once every target is published.
pub proof fn lemma_push_step(v: PushView, e: PushEvent)
    requires
        push_view_wf(v),
    ensures
        push_view_wf(step_spec(v, e).0),
        step_spec(v, e).0.total == v.total,
        step_spec(v, e).1 matches Some((a, b)) ==> {
            &&& v.phase == PushWait::Drain
            &&& a == v.sent
            &&& a < b <= v.total
            &&& e matches PushEvent::Drain(n) && b - a <= n
        },
        step_spec(v, e).0.phase == PushWait::Finished && v.phase != PushWait::Finished ==> {
            &&& e == PushEvent::Empty
            &&& v.phase == PushWait::Empty
            &&& v.sent == v.total
        },
{
}

proof fn lemma_run_wf(v: PushView, es: Seq<PushEvent>)
    requires
        push_view_wf(v),
    ensures
        push_view_wf(run_push(v, es)),
        run_push(v, es).total == v.total,
    decreases es.len(),
{
    if es.len() > 0 {
        lemma_push_step(v, es[0]);
        lemma_run_wf(step_spec(v, es[0]).0, es.drop_first());
    }
}

proof fn lemma_run_settled(v: PushView, es: Seq<PushEvent>)
    requires
        push_view_wf(v),
        v.phase != PushWait::Drain,
    ensures
        run_push(v, es).publishes == v.publishes,
        run_push(v, es).phase != PushWait::Drain,
    decreases es.len(),
{
    if es.len() > 0 {
        lemma_run_settled(step_spec(v, es[0]).0, es.drop_first());
    }
}

proof fn lemma_run_window_count(v: PushView, es: Seq<PushEvent>)
    requires
        push_view_wf(v),
        v.publishes * BUFFER_CAPACITY >= v.sent,
        needs_within_capacity(es),
    ensures
        run_push(v, es).publishes * BUFFER_CAPACITY >= run_push(v, es).sent,
    decreases es.len(),
{
    if es.len() > 0 {
        let rest = es.drop_first();
        assert(es[0] matches PushEvent::Drain(n) ==> n <= BUFFER_CAPACITY);
        assert forall|i: int| 0 <= i < rest.len() implies (#[trigger] rest[i] matches PushEvent::Drain(
            n,
        ) ==> n <= BUFFER_CAPACITY) by {
            assert(rest[i] == es[i + 1]);
        }
        lemma_run_window_count(step_spec(v, es[0]).0, rest);
    }
}

/// A push of at least one and at most `BUFFER_CAPACITY` targets publishes them
/// all in a single push message and from then on only waits for the buffer to
/// play out: whatever events follow, it publishes nothing more and never waits
/// for `Drain`.
pub proof fn lemma_push_within_capacity(total: nat, es: Seq<PushEvent>)
    requires
        0 < total <= BUFFER_CAPACITY,
    ensures
        start_spec(total).1 == Some((0nat, total)),
        start_spec(total).0.phase == PushWait::Empty,
        start_spec(total).0.publishes == 1,
        run_push(start_spec(total).0, es).publishes == 1,
        run_push(start_spec(total).0, es).phase != PushWait::Drain,
{
    lemma_run_settled(start_spec(total).0, es);
}

/// A push of more than `BUFFER_CAPACITY` targets first publishes exactly
/// `BUFFER_CAPACITY` of them and waits for room; it finishes only once every
/// target is published; and when no `Drain` announces more than
/// `BUFFER_CAPACITY` free slots, a finished push has used at least
/// `ceil(total / BUFFER_CAPACITY)` push messages.
pub proof fn lemma_push_beyond_capacity(total: nat, es: Seq<PushEvent>)
    requires
        total > BUFFER_CAPACITY,
    ensures
        start_spec(total).1 == Some((0nat, BUFFER_CAPACITY as nat)),
        start_spec(total).0.phase == PushWait::Drain,
        run_push(start_spec(total).0, es).phase == PushWait::Finished ==> run_push(
            start_spec(total).0,
            es,
        ).sent == total,
        needs_within_capacity(es) && run_push(start_spec(total).0, es).phase
            == PushWait::Finished ==> run_push(start_spec(total).0, es).publishes
            * BUFFER_CAPACITY >= total,
{
    let v = start_spec(total).0;
    lemma_run_wf(v, es);
    if needs_within_capacity(es) {
        lemma_run_window_count(v, es);
    }
}

} // verus!
