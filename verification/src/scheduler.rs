use vstd::prelude::*;

use crate::config::{naming_mode_of, spec_naming_mode, NamingMode};
use crate::error::{DownloadError, ErrorView};

verus! {

/// What one finished task came to: the bytes written on success, or the error
/// that ended it.
pub type FetchResult = Result<u64, DownloadError>;

/// The ghost image of one outcome slot.
pub open spec fn outcome_view(o: Option<FetchResult>) -> Option<Result<u64, ErrorView>> {
    match o {
        None => None,
        Some(Ok(b)) => Some(Ok(b)),
        Some(Err(e)) => Some(Err(e@)),
    }
}

/// The ghost image of a whole outcome sequence.
pub open spec fn outcomes_view(s: Seq<Option<FetchResult>>) -> Seq<Option<Result<u64, ErrorView>>> {
    s.map_values(|o: Option<FetchResult>| outcome_view(o))
}

/// How many outcomes have been recorded.
pub open spec fn count_recorded(s: Seq<Option<FetchResult>>) -> nat
    decreases s.len(),
{
    if s.len() == 0 {
        0nat
    } else {
        count_recorded(s.drop_last()) + (if s.last() is Some {
            1nat
        } else {
            0nat
        })
    }
}

/// How many recorded outcomes succeeded.
pub open spec fn count_ok(s: Seq<Option<FetchResult>>) -> nat
    decreases s.len(),
{
    if s.len() == 0 {
        0nat
    } else {
        count_ok(s.drop_last()) + (if s.last() matches Some(Ok(_)) {
            1nat
        } else {
            0nat
        })
    }
}

/// The failures among the outcomes, in ordinal order: each failing ordinal
/// with the view of its error.
pub open spec fn spec_failures(s: Seq<Option<FetchResult>>) -> Seq<(int, ErrorView)>
    decreases s.len(),
{
    if s.len() == 0 {
        seq![]
    } else {
        let init = spec_failures(s.drop_last());
        match s.last() {
            Some(Err(e)) => init.push((s.len() - 1, e@)),
            _ => init,
        }
    }
}

proof fn lemma_count_recorded_le_len(s: Seq<Option<FetchResult>>)
    ensures
        count_recorded(s) <= s.len(),
    decreases s.len(),
{
    if s.len() > 0 {
        lemma_count_recorded_le_len(s.drop_last());
    }
}

proof fn lemma_count_ok_le_len(s: Seq<Option<FetchResult>>)
    ensures
        count_ok(s) <= s.len(),
    decreases s.len(),
{
    if s.len() > 0 {
        lemma_count_ok_le_len(s.drop_last());
    }
}

/// Recording into an empty slot raises the recorded count by one.
proof fn lemma_count_recorded_update(s: Seq<Option<FetchResult>>, i: int, v: FetchResult)
    requires
        0 <= i < s.len(),
        s[i] is None,
    ensures
        count_recorded(s.update(i, Some(v))) == count_recorded(s) + 1,
    decreases s.len(),
{
    let t = s.update(i, Some(v));
    if i == s.len() - 1 {
        assert(t.drop_last() =~= s.drop_last());
        assert(t.last() == Some(v));
    } else {
        assert(t.drop_last() =~= s.drop_last().update(i, Some(v)));
        assert(t.last() == s.last());
        lemma_count_recorded_update(s.drop_last(), i, v);
    }
}

/// With an empty slot below `upto` and nothing recorded from `upto` on, fewer
/// than `upto` outcomes are recorded.
proof fn lemma_count_recorded_hole(s: Seq<Option<FetchResult>>, upto: int, hole: int)
    requires
        0 <= hole < upto <= s.len(),
        s[hole] is None,
        forall|j: int| upto <= j < s.len() ==> s[j] is None,
    ensures
        count_recorded(s) < upto,
    decreases s.len(),
{
    if s.len() > upto {
        lemma_count_recorded_hole(s.drop_last(), upto, hole);
    } else {
        if hole == s.len() - 1 {
            lemma_count_recorded_le_len(s.drop_last());
        } else {
            lemma_count_recorded_hole(s.drop_last(), upto - 1, hole);
        }
    }
}

/// Every recorded outcome is a success or a listed failure.
proof fn lemma_counts_split(s: Seq<Option<FetchResult>>)
    ensures
        count_ok(s) + spec_failures(s).len() == count_recorded(s),
    decreases s.len(),
{
    if s.len() > 0 {
        lemma_counts_split(s.drop_last());
    }
}

/// The slot pool and outcome board of one run. Dispatch hands out ordinals in
/// manifest order while a slot is free; each completion is recorded by
/// ordinal, whatever order tasks finish in.
#[derive(Debug)]
pub struct Scheduler {
    pub limit: usize,
    pub next: usize,
    pub in_flight: usize,
    pub completed: usize,
    pub outcomes: Vec<Option<FetchResult>>,
}

/// One failed task in the final summary.
#[derive(Debug)]
pub struct TaskFailure {
    pub ordinal: usize,
    pub error: DownloadError,
}

/// What a whole run came to: counts, and every failure with its ordinal and
/// error, in ordinal order.
#[derive(Debug)]
pub struct RunSummary {
    pub succeeded: usize,
    pub failed: usize,
    pub failures: Vec<TaskFailure>,
}

impl Scheduler {
    pub open spec fn total(&self) -> nat {
        self.outcomes@.len()
    }

    /// The scheduler invariant. In particular: the tasks in flight never
    /// exceed the concurrency limit, ordinals are dispatched at most once,
    /// and an outcome is recorded only for a dispatched ordinal.
    pub open spec fn wf(&self) -> bool {
        &&& self.limit >= 1
        &&& self.next <= self.total()
        &&& self.completed == count_recorded(self.outcomes@)
        &&& self.completed + self.in_flight == self.next
        &&& self.in_flight <= self.limit
        &&& forall|i: int| self.next <= i < self.total() ==> self.outcomes@[i] is None
    }

    /// A fresh scheduler for `total` tasks and `limit` slots. A limit of zero
    /// could never dispatch and is a configuration error.
    pub fn new(total: usize, limit: usize) -> (r: Result<Scheduler, DownloadError>)
        ensures
            limit >= 1 ==> (r matches Ok(s) && s.wf() && s.total() == total && s.limit == limit
                && s.next == 0 && s.in_flight == 0 && s.completed == 0),
            limit == 0 ==> (r matches Err(e) && e is Configuration),
    {
        if limit == 0 {
            return Err(
                DownloadError::Configuration("the concurrency limit must be positive".to_owned()),
            );
        }
        let mut outcomes: Vec<Option<FetchResult>> = Vec::new();
        let mut i: usize = 0;
        while i < total
            invariant
                0 <= i <= total,
                outcomes@.len() == i,
                forall|k: int| 0 <= k < i ==> outcomes@[k] is None,
                count_recorded(outcomes@) == 0,
            decreases total - i,
        {
            let ghost pre = outcomes@;
            outcomes.push(None);
            proof {
                assert(outcomes@.drop_last() =~= pre);
            }
            i = i + 1;
        }
        Ok(Scheduler { limit, next: 0, in_flight: 0, completed: 0, outcomes })
    }

    /// True while another task may be dispatched right now: a slot is free
    /// and manifest entries remain.
    pub fn can_dispatch(&self) -> (r: bool)
        ensures
            r <==> (self.in_flight < self.limit && self.next < self.total()),
    {
        self.in_flight < self.limit && self.next < self.outcomes.len()
    }

    /// Takes the next ordinal, filling one slot. Requires a free slot: the
    /// dispatch loop waits on slot release, never oversubscribes.
    pub fn dispatch(&mut self) -> (ordinal: usize)
        requires
            old(self).wf(),
            old(self).in_flight < old(self).limit,
            old(self).next < old(self).total(),
        ensures
            final(self).wf(),
            ordinal == old(self).next,
            final(self).next == old(self).next + 1,
            final(self).in_flight == old(self).in_flight + 1,
            final(self).completed == old(self).completed,
            final(self).limit == old(self).limit,
            final(self).outcomes@ == old(self).outcomes@,
    {
        let ordinal = self.next;
        let cap = self.outcomes.len();
        proof {
            assert(ordinal < cap);
        }
        self.next = ordinal + 1;
        self.in_flight = self.in_flight + 1;
        ordinal
    }

    /// Records what a dispatched task came to, freeing its slot. Each ordinal
    /// is recorded at most once; completion order does not matter.
    pub fn record(&mut self, ordinal: usize, outcome: FetchResult)
        requires
            old(self).wf(),
            ordinal < old(self).next,
            old(self).outcomes@[ordinal as int] is None,
        ensures
            final(self).wf(),
            final(self).outcomes@ == old(self).outcomes@.update(ordinal as int, Some(outcome)),
            final(self).completed == old(self).completed + 1,
            final(self).in_flight == old(self).in_flight - 1,
            final(self).next == old(self).next,
            final(self).limit == old(self).limit,
    {
        proof {
            lemma_count_recorded_hole(self.outcomes@, self.next as int, ordinal as int);
            lemma_count_recorded_update(self.outcomes@, ordinal as int, outcome);
        }
        self.outcomes[ordinal] = Some(outcome);
        self.completed = self.completed + 1;
        self.in_flight = self.in_flight - 1;
    }

    /// True once every task has been dispatched and recorded.
    pub fn is_finished(&self) -> (r: bool)
        ensures
            r <==> (self.next == self.total() && self.in_flight == 0),
    {
        self.next == self.outcomes.len() && self.in_flight == 0
    }

    /// The final summary of a finished run: how many tasks succeeded, how
    /// many failed, and every failure with its ordinal and error, in ordinal
    /// order. Every task is accounted for.
    pub fn summary(&self) -> (r: RunSummary)
        requires
            self.wf(),
            self.next == self.total(),
            self.in_flight == 0,
        ensures
            r.succeeded == count_ok(self.outcomes@),
            r.failed == spec_failures(self.outcomes@).len(),
            r.failures@.map_values(|f: TaskFailure| (f.ordinal as int, f.error@)) == spec_failures(
                self.outcomes@,
            ),
            r.succeeded + r.failed == self.total(),
    {
        let ghost whole = self.outcomes@;
        let mut succeeded: usize = 0;
        let mut failures: Vec<TaskFailure> = Vec::new();
        let mut i: usize = 0;
        proof {
            assert(whole.take(0) =~= Seq::<Option<FetchResult>>::empty());
            assert(failures@.map_values(|f: TaskFailure| (f.ordinal as int, f.error@))
                =~= spec_failures(whole.take(0)));
        }
        while i < self.outcomes.len()
            invariant
                self.wf(),
                whole == self.outcomes@,
                count_recorded(whole) == whole.len(),
                0 <= i <= whole.len(),
                succeeded == count_ok(whole.take(i as int)),
                succeeded <= i,
                failures@.len() <= i,
                failures@.map_values(|f: TaskFailure| (f.ordinal as int, f.error@))
                    == spec_failures(whole.take(i as int)),
            decreases whole.len() - i,
        {
            proof {
                assert(whole.take(i + 1).drop_last() =~= whole.take(i as int));
                assert(whole.take(i + 1).last() == whole[i as int]);
                lemma_count_ok_le_len(whole.take(i + 1));
            }
            match &self.outcomes[i] {
                Some(Ok(_)) => {
                    succeeded = succeeded + 1;
                },
                Some(Err(e)) => {
                    let ghost pre = failures@;
                    failures.push(TaskFailure { ordinal: i, error: e.clone() });
                    proof {
                        assert(failures@.drop_last() =~= pre);
                        assert(failures@.map_values(|f: TaskFailure| (f.ordinal as int, f.error@))
                            =~= pre.map_values(|f: TaskFailure| (f.ordinal as int, f.error@)).push(
                            (i as int, e@),
                        ));
                    }
                },
                None => {
                    proof {
                        assert(count_recorded(whole) == whole.len());
                        lemma_count_recorded_hole(whole, whole.len() as int, i as int);
                        assert(false);
                    }
                },
            }
            i = i + 1;
        }
        proof {
            assert(whole.take(whole.len() as int) =~= whole);
            lemma_counts_split(whole);
        }
        let failed = failures.len();
        RunSummary { succeeded, failed, failures }
    }
}

/// Validates the whole run configuration and sets its scheduler up, before
/// any network activity. Selecting the two mutually exclusive naming modes
/// together, or a concurrency limit of zero, fails here — with zero tasks
/// dispatched, since the scheduler of the run only exists on success.
pub fn prepare_run(total: usize, threads: usize, numbered: bool, files_only: bool) -> (r: Result<
    (NamingMode, Scheduler),
    DownloadError,
>)
    ensures
        r is Ok <==> (!(numbered && files_only) && threads >= 1),
        r matches Err(e) ==> e is Configuration,
        r matches Ok(p) ==> {
            &&& p.0 == spec_naming_mode(numbered, files_only)
            &&& p.1.wf()
            &&& p.1.total() == total
            &&& p.1.limit == threads
            &&& p.1.next == 0
            &&& p.1.in_flight == 0
            &&& p.1.completed == 0
        },
{
    let mode = naming_mode_of(numbered, files_only)?;
    let scheduler = Scheduler::new(total, threads)?;
    Ok((mode, scheduler))
}

/// However long the manifest and whatever the interleaving, a well-formed
/// scheduler never has more tasks in flight than its concurrency limit:
/// the bound is part of the invariant that every operation preserves, and
/// `dispatch` demands a free slot.
pub proof fn lemma_in_flight_bounded(s: &Scheduler)
    requires
        s.wf(),
    ensures
        s.in_flight <= s.limit,
{
}

/// Concurrency affects timing, not output: the summary is a function of the
/// outcome board alone. Two finished runs that recorded, ordinal by ordinal,
/// outcomes with the same view — whatever their concurrency limits and in
/// whatever order their tasks were dispatched and finished — are summarised
/// identically.
pub proof fn lemma_summary_depends_only_on_outcomes(
    a: Seq<Option<FetchResult>>,
    b: Seq<Option<FetchResult>>,
)
    requires
        outcomes_view(a) == outcomes_view(b),
    ensures
        count_ok(a) == count_ok(b),
        spec_failures(a) == spec_failures(b),
    decreases a.len(),
{
    assert(a.len() == outcomes_view(a).len());
    assert(b.len() == outcomes_view(b).len());
    if a.len() > 0 {
        assert(outcomes_view(a.drop_last()) =~= outcomes_view(a).drop_last());
        assert(outcomes_view(b.drop_last()) =~= outcomes_view(b).drop_last());
        lemma_summary_depends_only_on_outcomes(a.drop_last(), b.drop_last());
        assert(outcome_view(a.last()) == outcomes_view(a)[a.len() - 1]);
        assert(outcome_view(b.last()) == outcomes_view(b)[b.len() - 1]);
    }
}

} // verus!
