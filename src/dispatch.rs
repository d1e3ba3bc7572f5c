//! Sending the requests of one tick, one after the other, on a best-effort
//! basis: the outcome of each is recorded and never stops the next.

use crate::notify::{request_views, NotifyRequest, RequestSpec};
use vstd::prelude::*;

verus! {

/// The model of a dispatch: the requests, how many were attempted, and how
/// many of those failed.
pub struct DispatchSpec {
    pub requests: Seq<RequestSpec>,
    pub next: nat,
    pub failures: nat,
}

/// The dispatch of `requests` before any is attempted.
pub open spec fn dispatch_start(requests: Seq<RequestSpec>) -> DispatchSpec {
    DispatchSpec { requests, next: 0, failures: 0 }
}

/// The dispatch `d` after the outcome of its next request is known.
pub open spec fn record_spec(d: DispatchSpec, succeeded: bool) -> DispatchSpec {
    DispatchSpec {
        requests: d.requests,
        next: d.next + 1,
        failures: if succeeded {
            d.failures
        } else {
            d.failures + 1
        },
    }
}

/// The dispatch `d` after the outcomes `outcomes`, in order.
pub open spec fn after_outcomes(d: DispatchSpec, outcomes: Seq<bool>) -> DispatchSpec
    decreases outcomes.len(),
{
    if outcomes.len() == 0 {
        d
    } else {
        record_spec(after_outcomes(d, outcomes.drop_last()), outcomes.last())
    }
}

/// How many of `outcomes` are failures.
pub open spec fn failure_count(outcomes: Seq<bool>) -> nat
    decreases outcomes.len(),
{
    if outcomes.len() == 0 {
        0
    } else {
        failure_count(outcomes.drop_last()) + if outcomes.last() {
            0nat
        } else {
            1nat
        }
    }
}

/// The requests of one tick and how far their sending has come.
pub struct Dispatch {
    requests: Vec<NotifyRequest>,
    next: usize,
    failures: usize,
}

impl View for Dispatch {
    type V = DispatchSpec;

    closed spec fn view(&self) -> DispatchSpec {
        DispatchSpec {
            requests: request_views(self.requests@),
            next: self.next as nat,
            failures: self.failures as nat,
        }
    }
}

impl Dispatch {
    /// Well-formed: no more attempted than there are requests, no more
    /// failed than attempted.
    pub open spec fn wf(&self) -> bool {
        self@.failures <= self@.next <= self@.requests.len()
    }

    /// A dispatch of `requests`, none attempted yet.
    pub fn new(requests: Vec<NotifyRequest>) -> (r: Dispatch)
        ensures
            r@ == dispatch_start(request_views(requests@)),
            r.wf(),
    {
        Dispatch { requests, next: 0, failures: 0 }
    }

    /// The request to send now; `None` once every request was attempted.
    pub fn next_request(&self) -> (r: Option<&NotifyRequest>)
        requires
            self.wf(),
        ensures
            r is Some <==> self@.next < self@.requests.len(),
            r is Some ==> r->Some_0@ == self@.requests[self@.next as int],
    {
        if self.next < self.requests.len() {
            Some(&self.requests[self.next])
        } else {
            None
        }
    }

    /// Records the outcome of the request just sent and moves to the next
    /// one, whatever the outcome.
    pub fn record(&mut self, succeeded: bool)
        requires
            old(self).wf(),
            old(self)@.next < old(self)@.requests.len(),
        ensures
            final(self)@ == record_spec(old(self)@, succeeded),
            final(self).wf(),
    {
        let n = self.requests.len();
        assert(request_views(self.requests@).len() == n);
        self.next = self.next + 1;
        if !succeeded {
            self.failures = self.failures + 1;
        }
    }

    /// Whether every request was attempted.
    pub fn is_finished(&self) -> (r: bool)
        requires
            self.wf(),
        ensures
            r == (self@.next == self@.requests.len()),
    {
        self.next == self.requests.len()
    }

    /// How many of the attempted requests failed.
    pub fn failures(&self) -> (r: usize)
        ensures
            r == self@.failures,
    {
        self.failures
    }
}

/// Whatever the outcomes of the requests attempted so far, failures
/// included, the next request offered is the one after them, and once every
/// request has an outcome the dispatch is finished.
pub proof fn lemma_failures_do_not_stop_dispatch(requests: Seq<RequestSpec>, outcomes: Seq<bool>)
    requires
        outcomes.len() <= requests.len(),
    ensures
        after_outcomes(dispatch_start(requests), outcomes).requests == requests,
        after_outcomes(dispatch_start(requests), outcomes).next == outcomes.len(),
        after_outcomes(dispatch_start(requests), outcomes).failures == failure_count(outcomes),
        outcomes.len() == requests.len() ==> after_outcomes(dispatch_start(requests), outcomes).next
            == requests.len(),
    decreases outcomes.len(),
{
    if outcomes.len() > 0 {
        lemma_failures_do_not_stop_dispatch(requests, outcomes.drop_last());
    }
}

} // verus!
