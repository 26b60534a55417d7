use crate::error::HardwareTaskError;
use crate::topics::{response_topic, response_topic_spec};
use std::collections::HashMap;
use vstd::prelude::*;

verus! {

broadcast use vstd::std_specs::hash::group_hash_axioms;

/// How the wait for a correlated response ended.
#[derive(Debug, PartialEq, Eq)]
pub enum ResponseOutcome {
    /// The answer arrived on the response topic.
    Received(String),
    /// The time box elapsed first.
    TimedOut,
    /// The cancellation signal fired first.
    Cancelled,
    /// The waiter's sending side went away without an answer.
    Closed,
}

/// What a correlated request returns for each way its wait can end: the
/// answer, "no answer" on timeout, or a failure.
pub open spec fn response_result(outcome: ResponseOutcome) -> Result<
    Option<String>,
    HardwareTaskError,
> {
    match outcome {
        ResponseOutcome::Received(payload) => Ok(Some(payload)),
        ResponseOutcome::TimedOut => Ok(None),
        ResponseOutcome::Cancelled => Err(HardwareTaskError::Cancelled),
        ResponseOutcome::Closed => Err(HardwareTaskError::ResponseChannelClosed),
    }
}

/// The pending waiters of correlated requests, keyed by request id. Ids are
/// handed out in increasing order, so every live id is below the next one.
pub struct ResponseTable<W> {
    next_id: u64,
    pending: HashMap<u64, W>,
}

/// A correlated request that has been registered and not yet completed.
pub struct PendingResponse {
    id: u64,
    topic: String,
}

impl PendingResponse {
    #[verifier::type_invariant]
    closed spec fn inv(&self) -> bool {
        self.topic@ == response_topic_spec(self.id as nat)
    }

    pub closed spec fn request_id(&self) -> u64 {
        self.id
    }

    /// The id of the request.
    pub fn id(&self) -> (r: u64)
        ensures
            r == self.request_id(),
    {
        self.id
    }

    /// The topic on which the answer is expected.
    pub fn topic(&self) -> (r: &str)
        ensures
            r@ == response_topic_spec(self.request_id() as nat),
    {
        proof {
            use_type_invariant(self);
        }
        self.topic.as_str()
    }

    /// Ends the request: its waiter leaves the table (if the answer has not
    /// already taken it), the result follows from how the wait ended, and the
    /// topic to unsubscribe from is handed back. Taking `self` by value makes
    /// this happen once per request.
    pub fn complete<W>(self, table: &mut ResponseTable<W>, outcome: ResponseOutcome) -> (r: (
        Result<Option<String>, HardwareTaskError>,
        String,
    ))
        requires
            old(table).wf(),
        ensures
            final(table).wf(),
            final(table).waiters() == old(table).waiters().remove(self.request_id()),
            final(table).next_id_spec() == old(table).next_id_spec(),
            r.0 == response_result(outcome),
            r.1@ == response_topic_spec(self.request_id() as nat),
    {
        proof {
            use_type_invariant(&self);
        }
        let _ = table.take(self.id);
        let result = match outcome {
            ResponseOutcome::Received(payload) => Ok(Some(payload)),
            ResponseOutcome::TimedOut => Ok(None),
            ResponseOutcome::Cancelled => Err(HardwareTaskError::Cancelled),
            ResponseOutcome::Closed => Err(HardwareTaskError::ResponseChannelClosed),
        };
        (result, self.topic)
    }
}

impl<W> ResponseTable<W> {
    /// Every live id was handed out before the next one.
    pub closed spec fn wf(&self) -> bool {
        forall|id: u64| #[trigger] self.pending@.contains_key(id) ==> id < self.next_id
    }

    /// The live waiters, by request id.
    pub closed spec fn waiters(&self) -> Map<u64, W> {
        self.pending@
    }

    /// The id the next request will get.
    pub closed spec fn next_id_spec(&self) -> u64 {
        self.next_id
    }

    /// An empty table whose first id is 0.
    pub fn new() -> (r: ResponseTable<W>)
        ensures
            r.waiters() == Map::<u64, W>::empty(),
            r.next_id_spec() == 0,
            r.wf(),
    {
        ResponseTable { next_id: 0, pending: HashMap::new() }
    }

    /// Registers `waiter` under a fresh id, which no live request holds, and
    /// returns the pending request. Fails with `ResponseIdsExhausted`, leaving
    /// the table as it is, once every id has been handed out.
    pub fn register(&mut self, waiter: W) -> (r: Result<PendingResponse, HardwareTaskError>)
        requires
            old(self).wf(),
        ensures
            final(self).wf(),
            old(self).next_id_spec() == u64::MAX <==> r is Err,
            match r {
                Ok(p) => {
                    &&& p.request_id() == old(self).next_id_spec()
                    &&& !old(self).waiters().contains_key(p.request_id())
                    &&& final(self).waiters() == old(self).waiters().insert(p.request_id(), waiter)
                    &&& final(self).next_id_spec() == old(self).next_id_spec() + 1
                },
                Err(e) => {
                    &&& e == HardwareTaskError::ResponseIdsExhausted
                    &&& final(self).waiters() == old(self).waiters()
                    &&& final(self).next_id_spec() == old(self).next_id_spec()
                },
            },
    {
        if self.next_id == u64::MAX {
            return Err(HardwareTaskError::ResponseIdsExhausted);
        }
        let id = self.next_id;
        self.pending.insert(id, waiter);
        self.next_id = id + 1;
        let topic = response_topic(id);
        Ok(PendingResponse { id, topic })
    }

    /// Takes the waiter of request `id` out of the table, if it is live.
    pub fn take(&mut self, id: u64) -> (r: Option<W>)
        requires
            old(self).wf(),
        ensures
            final(self).wf(),
            final(self).waiters() == old(self).waiters().remove(id),
            final(self).next_id_spec() == old(self).next_id_spec(),
            match r {
                Some(w) => old(self).waiters().contains_key(id) && w == old(self).waiters()[id],
                None => !old(self).waiters().contains_key(id),
            },
    {
        self.pending.remove(&id)
    }

    /// Whether request `id` still has a live waiter.
    pub fn is_pending(&self, id: u64) -> (r: bool)
        ensures
            r == self.waiters().contains_key(id),
    {
        self.pending.contains_key(&id)
    }
}

} // verus!
