use vstd::prelude::*;

verus! {

/// Progress of one task: the size its metadata probe declared (zero when the
/// probe declared none), the bytes received so far, and whether it finished.
#[derive(Debug)]
pub struct TaskProgress {
    pub declared: u64,
    pub received: u64,
    pub done: bool,
}

pub open spec fn done_flag(o: Option<TaskProgress>) -> nat {
    match o {
        Some(t) => if t.done {
            1nat
        } else {
            0nat
        },
        None => 0nat,
    }
}

/// How many tasks of the slot sequence have finished.
pub open spec fn count_done(s: Seq<Option<TaskProgress>>) -> nat
    decreases s.len(),
{
    if s.len() == 0 {
        0nat
    } else {
        count_done(s.drop_last()) + done_flag(s.last())
    }
}

proof fn lemma_count_done_le_len(s: Seq<Option<TaskProgress>>)
    ensures
        count_done(s) <= s.len(),
    decreases s.len(),
{
    if s.len() > 0 {
        lemma_count_done_le_len(s.drop_last());
    }
}

proof fn lemma_count_done_update(s: Seq<Option<TaskProgress>>, i: int, v: Option<TaskProgress>)
    requires
        0 <= i < s.len(),
    ensures
        count_done(s.update(i, v)) == count_done(s) - done_flag(s[i]) + done_flag(v),
    decreases s.len(),
{
    let t = s.update(i, v);
    if i == s.len() - 1 {
        assert(t.drop_last() =~= s.drop_last());
        assert(t.last() == v);
    } else {
        assert(t.drop_last() =~= s.drop_last().update(i, v));
        assert(t.last() == s.last());
        lemma_count_done_update(s.drop_last(), i, v);
    }
}

/// Shared progress bookkeeping of one run: how many tasks there are, how many
/// have finished, and a byte counter per started task. Tasks mutate it only
/// through the methods below; a rendering consumer, when one exists, reads
/// snapshots on its own cadence and never holds a task up.
#[derive(Debug)]
pub struct ProgressAggregator {
    pub total_tasks: usize,
    pub completed: usize,
    pub tasks: Vec<Option<TaskProgress>>,
}

impl ProgressAggregator {
    /// One progress slot per task, and the completion count is exactly the
    /// number of finished slots (so it never exceeds the task count).
    pub open spec fn wf(&self) -> bool {
        &&& self.tasks@.len() == self.total_tasks
        &&& self.completed == count_done(self.tasks@)
    }

    pub fn new(total: usize) -> (r: ProgressAggregator)
        ensures
            r.wf(),
            r.total_tasks == total,
            r.completed == 0,
            forall|i: int| 0 <= i < total ==> r.tasks@[i] is None,
    {
        let mut tasks: Vec<Option<TaskProgress>> = Vec::new();
        let mut i: usize = 0;
        while i < total
            invariant
                0 <= i <= total,
                tasks@.len() == i,
                forall|k: int| 0 <= k < i ==> tasks@[k] is None,
                count_done(tasks@) == 0,
            decreases total - i,
        {
            let ghost pre = tasks@;
            tasks.push(None);
            proof {
                assert(tasks@.drop_last() =~= pre);
                assert(done_flag(tasks@.last()) == 0);
            }
            i = i + 1;
        }
        ProgressAggregator { total_tasks: total, completed: 0, tasks }
    }

    /// A task begins, with the size its probe declared; a probe that declared
    /// no size reports zero here and the task proceeds all the same.
    pub fn task_started(&mut self, ordinal: usize, declared: u64)
        requires
            old(self).wf(),
            ordinal < old(self).total_tasks,
            old(self).tasks@[ordinal as int] is None,
        ensures
            final(self).wf(),
            final(self).total_tasks == old(self).total_tasks,
            final(self).completed == old(self).completed,
            final(self).tasks@ == old(self).tasks@.update(
                ordinal as int,
                Some(TaskProgress { declared, received: 0, done: false }),
            ),
    {
        proof {
            lemma_count_done_update(
                self.tasks@,
                ordinal as int,
                Some(TaskProgress { declared, received: 0, done: false }),
            );
        }
        self.tasks[ordinal] = Some(TaskProgress { declared, received: 0, done: false });
    }

    /// A task received `delta` more bytes. The byte counter sticks at the
    /// largest representable count rather than wrapping.
    pub fn task_progressed(&mut self, ordinal: usize, delta: u64)
        requires
            old(self).wf(),
            ordinal < old(self).total_tasks,
            old(self).tasks@[ordinal as int] matches Some(t) && !t.done,
        ensures
            final(self).wf(),
            final(self).total_tasks == old(self).total_tasks,
            final(self).completed == old(self).completed,
            ({
                let t = old(self).tasks@[ordinal as int]->0;
                let nr = if t.received + delta <= u64::MAX {
                    (t.received + delta) as u64
                } else {
                    u64::MAX
                };
                final(self).tasks@ == old(self).tasks@.update(
                    ordinal as int,
                    Some(TaskProgress { received: nr, ..t }),
                )
            }),
    {
        let t = match &self.tasks[ordinal] {
            Some(t) => TaskProgress { declared: t.declared, received: t.received, done: t.done },
            None => {
                proof {
                    assert(false);
                }
                TaskProgress { declared: 0, received: 0, done: false }
            },
        };
        let nr = if delta <= u64::MAX - t.received {
            t.received + delta
        } else {
            u64::MAX
        };
        proof {
            lemma_count_done_update(
                self.tasks@,
                ordinal as int,
                Some(TaskProgress { received: nr, ..t }),
            );
        }
        self.tasks[ordinal] = Some(TaskProgress { declared: t.declared, received: nr, done: t.done });
    }

    /// A task finished; the overall completion count moves up by one.
    pub fn task_finished(&mut self, ordinal: usize)
        requires
            old(self).wf(),
            ordinal < old(self).total_tasks,
            old(self).tasks@[ordinal as int] matches Some(t) && !t.done,
        ensures
            final(self).wf(),
            final(self).total_tasks == old(self).total_tasks,
            final(self).completed == old(self).completed + 1,
            ({
                let t = old(self).tasks@[ordinal as int]->0;
                final(self).tasks@ == old(self).tasks@.update(
                    ordinal as int,
                    Some(TaskProgress { done: true, ..t }),
                )
            }),
    {
        let t = match &self.tasks[ordinal] {
            Some(t) => TaskProgress { declared: t.declared, received: t.received, done: t.done },
            None => {
                proof {
                    assert(false);
                }
                TaskProgress { declared: 0, received: 0, done: false }
            },
        };
        proof {
            lemma_count_done_update(
                self.tasks@,
                ordinal as int,
                Some(TaskProgress { done: true, ..t }),
            );
            lemma_count_done_le_len(self.tasks@.update(
                ordinal as int,
                Some(TaskProgress { done: true, ..t }),
            ));
        }
        self.tasks[ordinal] = Some(TaskProgress { declared: t.declared, received: t.received, done: true });
        self.completed = self.completed + 1;
    }

    /// The overall state: tasks finished so far, out of how many.
    pub fn overall_snapshot(&self) -> (r: (usize, usize))
        ensures
            r.0 == self.completed,
            r.1 == self.total_tasks,
    {
        (self.completed, self.total_tasks)
    }

    /// One task's byte counters, for the rendering consumer: bytes received
    /// and bytes declared, or nothing if the task has not started.
    pub fn task_snapshot(&self, ordinal: usize) -> (r: Option<(u64, u64)>)
        requires
            ordinal < self.total_tasks,
            self.wf(),
        ensures
            (self.tasks@[ordinal as int] matches Some(t) ==> r == Some::<(u64, u64)>(
                (t.received, t.declared),
            )),
            self.tasks@[ordinal as int] is None ==> r is None,
    {
        match &self.tasks[ordinal] {
            Some(t) => Some((t.received, t.declared)),
            None => None,
        }
    }

    /// The completion count never exceeds the task count.
    pub proof fn lemma_completed_bounded(&self)
        requires
            self.wf(),
        ensures
            self.completed <= self.total_tasks,
    {
        lemma_count_done_le_len(self.tasks@);
    }
}

} // verus!
