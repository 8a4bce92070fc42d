use vstd::prelude::*;

use crate::probe::ProbeResult;
use crate::record::{make_check_record, record_spec, utc_timestamp, CheckRecord};

verus! {

/// One stored query under test: its identifier in the store and its text.
#[derive(Clone, Debug, PartialEq, Eq)]
pub struct CandidateQuery {
    pub id: String,
    pub text: String,
}

/// Why the initial fetch of candidate queries failed. Any of these is
/// fatal: the run ends before any evaluation starts, and nothing is
/// written.
#[derive(Clone, Copy, Debug, PartialEq, Eq)]
pub enum FetchError {
    Transport,
    Status,
    Body,
}

/// What the one fetch request came to, as the surrounding I/O layer saw
/// it: no response at all, or a response with its status and — where the
/// body decoded as a binding set of query/text rows — the candidates read
/// from it.
pub enum FetchOutcome {
    Transport,
    Response { status_ok: bool, candidates: Option<Vec<CandidateQuery>> },
}

/// What the run makes of the fetch: a transport failure, a failing status
/// and an undecodable body are each fatal, and a decoded candidate list is
/// passed through unchanged.
pub open spec fn interpret_fetch_spec(outcome: FetchOutcome) -> Result<Vec<CandidateQuery>, FetchError> {
    match outcome {
        FetchOutcome::Transport => Err(FetchError::Transport),
        FetchOutcome::Response { status_ok, candidates } => {
            if !status_ok {
                Err(FetchError::Status)
            } else {
                match candidates {
                    Some(c) => Ok(c),
                    None => Err(FetchError::Body),
                }
            }
        },
    }
}

/// Decides whether the run proceeds: either the candidate queries to
/// evaluate, or the fatal error that ends the run with nothing written.
pub fn interpret_fetch(outcome: FetchOutcome) -> (r: Result<Vec<CandidateQuery>, FetchError>)
    ensures
        r == interpret_fetch_spec(outcome),
{
    match outcome {
        FetchOutcome::Transport => Err(FetchError::Transport),
        FetchOutcome::Response { status_ok, candidates } => {
            if !status_ok {
                Err(FetchError::Status)
            } else {
                match candidates {
                    Some(c) => Ok(c),
                    None => Err(FetchError::Body),
                }
            }
        },
    }
}

/// How many workers evaluate queries in parallel: the hardware parallelism
/// where it could be determined, and one worker otherwise.
pub fn worker_count(available: Option<usize>) -> (n: usize)
    ensures
        n == match available {
            Some(k) => k,
            None => 1usize,
        },
{
    match available {
        Some(k) => k,
        None => 1,
    }
}

/// How many of the flags are set.
pub open spec fn count_true(s: Seq<bool>) -> nat
    decreases s.len(),
{
    if s.len() == 0 {
        0
    } else {
        count_true(s.drop_last()) + if s.last() {
            1nat
        } else {
            0nat
        }
    }
}

proof fn lemma_count_true_le_len(s: Seq<bool>)
    ensures
        count_true(s) <= s.len(),
    decreases s.len(),
{
    if s.len() > 0 {
        lemma_count_true_le_len(s.drop_last());
    }
}

proof fn lemma_count_true_zero(s: Seq<bool>)
    requires
        forall|i: int| 0 <= i < s.len() ==> !s[i],
    ensures
        count_true(s) == 0,
    decreases s.len(),
{
    if s.len() > 0 {
        assert forall|i: int| 0 <= i < s.drop_last().len() implies !s.drop_last()[i] by {
            assert(s.drop_last()[i] == s[i]);
        }
        lemma_count_true_zero(s.drop_last());
        assert(!s.last());
    }
}

proof fn lemma_count_true_update(s: Seq<bool>, i: int)
    requires
        0 <= i < s.len(),
        !s[i],
    ensures
        count_true(s.update(i, true)) == count_true(s) + 1,
    decreases s.len(),
{
    let t = s.update(i, true);
    if i == s.len() - 1 {
        assert(t.drop_last() =~= s.drop_last());
        assert(t.last());
        assert(!s.last());
    } else {
        assert(t.drop_last() =~= s.drop_last().update(i, true));
        assert(t.last() == s.last());
        lemma_count_true_update(s.drop_last(), i);
    }
}

proof fn lemma_count_true_full(s: Seq<bool>)
    requires
        count_true(s) == s.len(),
    ensures
        forall|i: int| 0 <= i < s.len() ==> s[i],
    decreases s.len(),
{
    if s.len() > 0 {
        lemma_count_true_le_len(s.drop_last());
        assert(s.last());
        lemma_count_true_full(s.drop_last());
        assert forall|i: int| 0 <= i < s.len() implies s[i] by {
            if i < s.len() - 1 {
                assert(s.drop_last()[i] == s[i]);
            }
        }
    }
}

/// Hands out one evaluation task per candidate query and takes back
/// exactly one completion per task, building the check record that the
/// completion writes. Tasks may come back in any order and concurrently;
/// the run is finished exactly when every task has completed once, so a
/// run over N queries yields exactly N records — no more, no fewer.
pub struct Dispatcher {
    queries: Vec<CandidateQuery>,
    issued: usize,
    done: Vec<bool>,
    completed: usize,
}

impl Dispatcher {
    /// The candidate queries of this run, in fetch order.
    pub closed spec fn queries_spec(self) -> Seq<CandidateQuery> {
        self.queries@
    }

    /// How many queries the run evaluates.
    pub closed spec fn total(self) -> int {
        self.queries@.len() as int
    }

    /// How many tasks have been handed out.
    pub closed spec fn issued_count(self) -> int {
        self.issued as int
    }

    /// How many tasks have come back, each with its one record.
    pub closed spec fn completed_count(self) -> int {
        self.completed as int
    }

    /// Whether task `i` has come back already.
    pub closed spec fn task_done(self, i: int) -> bool {
        0 <= i < self.done@.len() && self.done@[i]
    }

    pub closed spec fn wf(self) -> bool {
        &&& self.done@.len() == self.queries@.len()
        &&& self.issued <= self.queries@.len()
        &&& self.completed == count_true(self.done@)
        &&& forall|i: int| 0 <= i < self.done@.len() && self.done@[i] ==> i < self.issued
    }

    pub fn new(queries: Vec<CandidateQuery>) -> (d: Dispatcher)
        ensures
            d.wf(),
            d.queries_spec() == queries@,
            d.issued_count() == 0,
            d.completed_count() == 0,
            forall|i: int| !d.task_done(i),
    {
        let n = queries.len();
        let mut done: Vec<bool> = Vec::new();
        let mut k: usize = 0;
        while k < n
            invariant
                k <= n,
                done@.len() == k,
                forall|i: int| 0 <= i < k ==> !done@[i],
            decreases n - k,
        {
            done.push(false);
            k = k + 1;
        }
        proof {
            lemma_count_true_zero(done@);
        }
        Dispatcher { queries, issued: 0, done, completed: 0 }
    }

    /// The index of the next task to hand out; `None` once one task per
    /// query has been issued.
    pub fn next_task(&mut self) -> (t: Option<usize>)
        requires
            old(self).wf(),
        ensures
            final(self).wf(),
            final(self).queries_spec() == old(self).queries_spec(),
            final(self).completed_count() == old(self).completed_count(),
            forall|i: int| final(self).task_done(i) == old(self).task_done(i),
            if old(self).issued_count() < old(self).total() {
                &&& t == Some((old(self).issued_count()) as usize)
                &&& final(self).issued_count() == old(self).issued_count() + 1
            } else {
                &&& t is None
                &&& final(self).issued_count() == old(self).issued_count()
            },
    {
        if self.issued < self.queries.len() {
            let i = self.issued;
            self.issued = self.issued + 1;
            Some(i)
        } else {
            None
        }
    }

    /// The query a task evaluates.
    pub fn query_at(&self, i: usize) -> (q: &CandidateQuery)
        requires
            self.wf(),
            i < self.total(),
        ensures
            *q == self.queries_spec()[i as int],
    {
        &self.queries[i]
    }

    /// Takes back one task's probe verdict, marks the task completed, and
    /// yields the record its completion writes, stamped with the current
    /// time. `None` where the task was never handed out or has completed
    /// already: no task can produce a second record.
    pub fn complete(&mut self, i: usize, result: &ProbeResult, endpoints: &Vec<String>) -> (rec: Option<
        CheckRecord,
    >)
        requires
            old(self).wf(),
            result.endpoint matches Some(e) ==> e < endpoints@.len(),
        ensures
            final(self).wf(),
            final(self).queries_spec() == old(self).queries_spec(),
            final(self).issued_count() == old(self).issued_count(),
            rec is Some <==> i < old(self).issued_count() && !old(self).task_done(i as int),
            rec matches Some(r) ==> {
                &&& final(self).completed_count() == old(self).completed_count() + 1
                &&& final(self).task_done(i as int)
                &&& forall|j: int| j != i ==> final(self).task_done(j) == old(self).task_done(j)
                &&& exists|ts: Seq<char>| r@ == record_spec(
                    old(self).queries_spec()[i as int].id@,
                    result@,
                    ts,
                    endpoints.deep_view(),
                )
            },
            rec is None ==> *final(self) == *old(self),
    {
        if i < self.issued && !self.done[i] {
            let timestamp = utc_timestamp();
            let ghost ts = timestamp@;
            let rec = make_check_record(self.queries[i].id.clone(), result, timestamp, endpoints);
            let n = self.done.len();
            proof {
                lemma_count_true_update(self.done@, i as int);
                lemma_count_true_le_len(self.done@.update(i as int, true));
                assert(self.completed + 1 <= n);
            }
            self.done[i] = true;
            self.completed = self.completed + 1;
            Some(rec)
        } else {
            None
        }
    }

    /// Whether every query's task has come back; true exactly when the
    /// completion count reaches the number of queries, at which point each
    /// single task is completed.
    pub fn all_done(&self) -> (b: bool)
        requires
            self.wf(),
        ensures
            b <==> self.completed_count() == self.total(),
            b ==> forall|i: int| 0 <= i < self.total() ==> self.task_done(i),
    {
        let b = self.completed == self.queries.len();
        proof {
            if b {
                lemma_count_true_full(self.done@);
            }
        }
        b
    }

    /// A run never writes more records than it has queries: completions
    /// cannot outnumber the candidate queries.
    pub proof fn lemma_completions_bounded(self)
        requires
            self.wf(),
        ensures
            self.completed_count() <= self.total(),
    {
        lemma_count_true_le_len(self.done@);
    }
}

} // verus!
