use vstd::prelude::*;

use crate::classify::{ask_shape, classify, classify_spec, select_shape, Classification};

verus! {

/// The outcome of probing the endpoint list for one query: whether the query
/// was confirmed somewhere, and the position of the endpoint that gave the
/// definitive verdict, if any did.
#[derive(Clone, Copy, Debug, PartialEq, Eq)]
pub struct ProbeResult {
    pub success: bool,
    pub endpoint: Option<usize>,
}

/// Mathematical image of a `ProbeResult`, with an unbounded endpoint index.
pub ghost struct ProbeDecision {
    pub success: bool,
    pub endpoint: Option<int>,
}

impl View for ProbeResult {
    type V = ProbeDecision;

    open spec fn view(&self) -> ProbeDecision {
        ProbeDecision {
            success: self.success,
            endpoint: match self.endpoint {
                Some(i) => Some(i as int),
                None => None,
            },
        }
    }
}

/// Holds where every classification in the sequence is inconclusive.
pub open spec fn all_inconclusive(s: Seq<Classification>) -> bool {
    forall|i: int| 0 <= i < s.len() ==> s[i] is Inconclusive
}

/// The verdict the ordered endpoint list yields when endpoint `i` is the
/// next to be consulted and `events` lists what each endpoint's response
/// classifies as: the first definitive classification at or after `i`
/// decides, positively or negatively; where none remains, the query is
/// unresolved — failed, with no endpoint attached.
pub open spec fn decide_from(events: Seq<Classification>, i: int) -> ProbeDecision
    decreases events.len() - i,
{
    if i < 0 || i >= events.len() {
        ProbeDecision { success: false, endpoint: None }
    } else {
        match events[i] {
            Classification::Confirmed(_) => ProbeDecision { success: true, endpoint: Some(i) },
            Classification::Rejected(_) => ProbeDecision { success: false, endpoint: Some(i) },
            Classification::Inconclusive => decide_from(events, i + 1),
        }
    }
}

/// The verdict of a full probe of the endpoint list, given what each
/// endpoint's response classifies as.
pub open spec fn decide(events: Seq<Classification>) -> ProbeDecision {
    decide_from(events, 0)
}

/// A definitive classification at the first endpoint decides the probe by
/// itself: a confirmation yields success there, a rejection failure there,
/// and in either case no later endpoint can change the verdict.
pub proof fn lemma_first_endpoint_decides(events: Seq<Classification>)
    requires
        events.len() >= 1,
        !(events[0] is Inconclusive),
    ensures
        events[0] is Confirmed ==> decide(events) == (ProbeDecision {
            success: true,
            endpoint: Some(0int),
        }),
        events[0] is Rejected ==> decide(events) == (ProbeDecision {
            success: false,
            endpoint: Some(0int),
        }),
{
}

/// Skipping a stretch of inconclusive endpoints does not change the verdict.
pub proof fn lemma_skip_inconclusive(events: Seq<Classification>, i: int, j: int)
    requires
        0 <= i <= j <= events.len(),
        forall|k: int| i <= k < j ==> events[k] is Inconclusive,
    ensures
        decide_from(events, i) == decide_from(events, j),
    decreases j - i,
{
    if i < j {
        lemma_skip_inconclusive(events, i + 1, j);
    }
}

/// A probe in which every endpoint stays inconclusive — every response a
/// transport failure or an unusable body — ends unresolved: failed, with no
/// endpoint attached.
pub proof fn lemma_all_inconclusive_unresolved(events: Seq<Classification>)
    requires
        all_inconclusive(events),
    ensures
        decide(events) == (ProbeDecision { success: false, endpoint: None }),
{
    lemma_skip_inconclusive(events, 0, events.len() as int);
}

/// Probes the fixed endpoint list for one query, one endpoint at a time and
/// in order, stopping at the first definitive verdict. The caller performs
/// the HTTP request against the endpoint `next_endpoint` names and feeds
/// back what came of it; this machine alone decides whether a further
/// endpoint is consulted.
pub struct Prober {
    count: usize,
    next: usize,
    outcome: Option<ProbeResult>,
    history: Ghost<Seq<Classification>>,
}

impl Prober {
    /// How many endpoints the probe walks.
    pub closed spec fn endpoint_count(self) -> int {
        self.count as int
    }

    /// The classifications of the responses seen so far, in probe order.
    pub closed spec fn history(self) -> Seq<Classification> {
        self.history@
    }

    /// The verdict, once one is reached.
    pub closed spec fn outcome_spec(self) -> Option<ProbeDecision> {
        match self.outcome {
            Some(r) => Some(r@),
            None => None,
        }
    }

    /// The position of the endpoint to be probed next, while no verdict is
    /// reached.
    pub closed spec fn pending(self) -> Option<int> {
        if self.outcome is None {
            Some(self.next as int)
        } else {
            None
        }
    }

    pub closed spec fn wf(self) -> bool {
        &&& self.count >= 1
        &&& match self.outcome {
            None => {
                &&& self.history@.len() == self.next
                &&& self.next < self.count
                &&& all_inconclusive(self.history@)
            },
            Some(r) => {
                ||| {
                    &&& 1 <= self.history@.len() <= self.count
                    &&& all_inconclusive(self.history@.drop_last())
                    &&& !(self.history@.last() is Inconclusive)
                    &&& r@ == decide_from(self.history@, self.history@.len() - 1)
                }
                ||| {
                    &&& self.history@.len() == self.count
                    &&& all_inconclusive(self.history@)
                    &&& r@ == (ProbeDecision { success: false, endpoint: None })
                }
            },
        }
    }

    /// How one classification advances the probe standing at endpoint `idx`:
    /// a definitive one ends it with that endpoint attached, an inconclusive
    /// one passes to the next endpoint, and an inconclusive one at the last
    /// endpoint ends it unresolved.
    pub open spec fn steps_to(pre: Prober, post: Prober, idx: int, c: Classification) -> bool {
        &&& post.wf()
        &&& post.endpoint_count() == pre.endpoint_count()
        &&& post.history() == pre.history().push(c)
        &&& match c {
            Classification::Confirmed(_) => {
                &&& post.outcome_spec() == Some(ProbeDecision { success: true, endpoint: Some(idx) })
                &&& post.pending() is None
            },
            Classification::Rejected(_) => {
                &&& post.outcome_spec() == Some(ProbeDecision { success: false, endpoint: Some(idx) })
                &&& post.pending() is None
            },
            Classification::Inconclusive => {
                if idx + 1 == pre.endpoint_count() {
                    &&& post.outcome_spec() == Some(ProbeDecision { success: false, endpoint: None })
                    &&& post.pending() is None
                } else {
                    &&& post.outcome_spec() is None
                    &&& post.pending() == Some(idx + 1)
                }
            },
        }
    }

    pub fn new(endpoint_count: usize) -> (p: Prober)
        requires
            1 <= endpoint_count,
        ensures
            p.wf(),
            p.endpoint_count() == endpoint_count,
            p.history() == Seq::<Classification>::empty(),
            p.pending() == Some(0int),
            p.outcome_spec() is None,
    {
        Prober { count: endpoint_count, next: 0, outcome: None, history: Ghost(Seq::empty()) }
    }

    /// The endpoint to probe now; `None` once a verdict is reached, so that
    /// no endpoint after the deciding one is ever consulted.
    pub fn next_endpoint(&self) -> (r: Option<usize>)
        requires
            self.wf(),
        ensures
            r matches Some(i) ==> self.pending() == Some(i as int) && i < self.endpoint_count(),
            r is None <==> self.pending() is None,
    {
        if self.outcome.is_none() {
            Some(self.next)
        } else {
            None
        }
    }

    /// Advances the probe with the classification of the response the
    /// pending endpoint gave.
    pub fn feed(&mut self, c: Classification)
        requires
            old(self).wf(),
            old(self).pending() is Some,
        ensures
            Self::steps_to(*old(self), *final(self), old(self).pending()->0, c),
    {
        let ghost pre = *self;
        proof {
            self.history@ = self.history@.push(c);
        }
        match c {
            Classification::Inconclusive => {
                if self.next + 1 == self.count {
                    self.outcome = Some(ProbeResult { success: false, endpoint: None });
                } else {
                    self.next = self.next + 1;
                }
                proof {
                    assert(all_inconclusive(self.history@));
                }
            },
            Classification::Confirmed(_) => {
                self.outcome = Some(ProbeResult { success: true, endpoint: Some(self.next) });
                proof {
                    assert(self.history@.drop_last() =~= pre.history@);
                }
            },
            Classification::Rejected(_) => {
                self.outcome = Some(ProbeResult { success: false, endpoint: Some(self.next) });
                proof {
                    assert(self.history@.drop_last() =~= pre.history@);
                }
            },
        }
    }

    /// Advances the probe with a raw response of the pending endpoint,
    /// classifying its HTTP status and body bytes.
    pub fn on_response(&mut self, status_ok: bool, body: &Vec<u8>)
        requires
            old(self).wf(),
            old(self).pending() is Some,
        ensures
            Self::steps_to(
                *old(self),
                *final(self),
                old(self).pending()->0,
                classify_spec(status_ok, select_shape(body@), ask_shape(body@)),
            ),
    {
        let c = classify(status_ok, body);
        self.feed(c);
    }

    /// Advances the probe past an endpoint that could not be reached at all:
    /// a transport failure contributes no definitive answer.
    pub fn on_transport_error(&mut self)
        requires
            old(self).wf(),
            old(self).pending() is Some,
        ensures
            Self::steps_to(
                *old(self),
                *final(self),
                old(self).pending()->0,
                Classification::Inconclusive,
            ),
    {
        self.feed(Classification::Inconclusive);
    }

    /// The verdict, once every needed endpoint has answered.
    pub fn result(&self) -> (r: Option<ProbeResult>)
        requires
            self.wf(),
        ensures
            match r {
                Some(pr) => self.outcome_spec() == Some(pr@),
                None => self.outcome_spec() is None,
            },
    {
        self.outcome
    }

    /// The verdict a finished probe reports is the verdict of the endpoint
    /// list as a whole: for any full assignment of classifications to
    /// endpoints that agrees with the responses actually seen, the machine's
    /// outcome equals `decide` of that assignment. In particular the
    /// endpoints never consulted — those after the first definitive answer —
    /// cannot change it.
    pub proof fn lemma_outcome_decides(self, events: Seq<Classification>)
        requires
            self.wf(),
            self.outcome_spec() is Some,
            events.len() == self.endpoint_count(),
            self.history().len() <= events.len(),
            events.subrange(0, self.history().len() as int) == self.history(),
        ensures
            self.outcome_spec() == Some(decide(events)),
    {
        let h = self.history@;
        let n = h.len() as int;
        assert forall|k: int| 0 <= k < n implies events[k] == h[k] by {
            assert(events.subrange(0, n)[k] == events[k]);
        }
        match self.outcome {
            Some(r) => {
                if n == self.count && all_inconclusive(h) {
                    assert(all_inconclusive(events));
                    lemma_all_inconclusive_unresolved(events);
                } else {
                    assert forall|k: int| 0 <= k < n - 1 implies events[k] is Inconclusive by {
                        assert(h.drop_last()[k] == h[k]);
                    }
                    lemma_skip_inconclusive(events, 0, n - 1);
                    assert(events[n - 1] == h.last());
                    assert(decide_from(events, n - 1) == decide_from(h, n - 1));
                }
            },
            None => {},
        }
    }
}

} // verus!
