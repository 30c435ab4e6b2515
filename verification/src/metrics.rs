//! Per-task-slot resource metrics: parallel fixed-size arrays of run
//! counts, stack high-water marks, worst-case durations and task names.
//!
//! Counters accumulate monotonically until an explicit per-slot reset; the
//! interval between two resets is a reporting epoch, so the counters are
//! deltas since the previous report, not lifetime totals.

use vstd::prelude::*;

use crate::tasks::MAX_TASKS;

verus! {

/// Increment that sticks at the top of the counter's range instead of
/// wrapping.
pub open spec fn sat_inc(c: u32) -> u32 {
    if c < u32::MAX {
        (c + 1) as u32
    } else {
        c
    }
}

/// The larger of two durations.
pub open spec fn max_u32(a: u32, b: u32) -> u32 {
    if a >= b {
        a
    } else {
        b
    }
}

/// The larger of two stack sizes.
pub open spec fn max_usize(a: usize, b: usize) -> usize {
    if a >= b {
        a
    } else {
        b
    }
}

/// What the metrics table looks like in specifications.
pub struct MetricsView {
    /// Run counts by slot.
    pub rc: Seq<u32>,
    /// Stack high-water marks by slot.
    pub ms: Seq<usize>,
    /// Worst observed durations by slot, in microseconds.
    pub md: Seq<u32>,
    /// Task name labels by slot.
    pub names: Seq<Seq<u8>>,
}

/// What one [`Metrics::record`] call does at the spec level.
pub open spec fn record_spec(m: MetricsView, i: int, d: u32, s: usize) -> MetricsView {
    MetricsView {
        rc: m.rc.update(i, sat_inc(m.rc[i])),
        ms: m.ms.update(i, max_usize(m.ms[i], s)),
        md: m.md.update(i, max_u32(m.md[i], d)),
        names: m.names,
    }
}

/// What one [`Metrics::reset`] call does at the spec level.
pub open spec fn reset_slot(m: MetricsView, i: int) -> MetricsView {
    MetricsView {
        rc: m.rc.update(i, 0u32),
        ms: m.ms.update(i, 0usize),
        md: m.md.update(i, 0u32),
        names: m.names,
    }
}

/// Fixed-size per-slot counters, indexed by task slot.
///
/// Mutated only by the scheduler immediately after a task returns, and
/// reset one slot at a time by the metrics-reporting task.
pub struct Metrics {
    task_run_count: Vec<u32>,
    task_max_stack: Vec<usize>,
    task_max_duration_us: Vec<u32>,
    task_name: Vec<[u8; 8]>,
}

impl View for Metrics {
    type V = MetricsView;

    closed spec fn view(&self) -> MetricsView {
        MetricsView {
            rc: self.task_run_count@,
            ms: self.task_max_stack@,
            md: self.task_max_duration_us@,
            names: self.task_name@.map_values(|n: [u8; 8]| n@),
        }
    }
}

impl Metrics {
    /// All four arrays always hold exactly `MAX_TASKS` entries.
    pub open spec fn wf(&self) -> bool {
        &&& self@.rc.len() == MAX_TASKS
        &&& self@.ms.len() == MAX_TASKS
        &&& self@.md.len() == MAX_TASKS
        &&& self@.names.len() == MAX_TASKS
    }

    /// Make a metrics table with every counter zero and every name blank.
    pub fn new() -> (m: Metrics)
        ensures
            m.wf(),
            forall|i: int| 0 <= i < MAX_TASKS ==> #[trigger] m@.rc[i] == 0,
            forall|i: int| 0 <= i < MAX_TASKS ==> #[trigger] m@.ms[i] == 0,
            forall|i: int| 0 <= i < MAX_TASKS ==> #[trigger] m@.md[i] == 0,
    {
        let mut task_run_count: Vec<u32> = Vec::new();
        let mut task_max_stack: Vec<usize> = Vec::new();
        let mut task_max_duration_us: Vec<u32> = Vec::new();
        let mut task_name: Vec<[u8; 8]> = Vec::new();
        let mut i: usize = 0;
        while i < MAX_TASKS
            invariant
                i <= MAX_TASKS,
                task_run_count@.len() == i,
                task_max_stack@.len() == i,
                task_max_duration_us@.len() == i,
                task_name@.len() == i,
                forall|j: int| 0 <= j < i ==> #[trigger] task_run_count@[j] == 0,
                forall|j: int| 0 <= j < i ==> #[trigger] task_max_stack@[j] == 0,
                forall|j: int| 0 <= j < i ==> #[trigger] task_max_duration_us@[j] == 0,
            decreases MAX_TASKS - i,
        {
            task_run_count.push(0);
            task_max_stack.push(0);
            task_max_duration_us.push(0);
            task_name.push([32u8; 8]);
            i = i + 1;
        }
        Metrics { task_run_count, task_max_stack, task_max_duration_us, task_name }
    }

    /// The run count of slot `i`.
    pub fn run_count(&self, i: usize) -> (n: u32)
        requires
            self.wf(),
            i < MAX_TASKS,
        ensures
            n == self@.rc[i as int],
    {
        self.task_run_count[i]
    }

    /// The stack high-water mark of slot `i`.
    pub fn max_stack(&self, i: usize) -> (n: usize)
        requires
            self.wf(),
            i < MAX_TASKS,
        ensures
            n == self@.ms[i as int],
    {
        self.task_max_stack[i]
    }

    /// The worst observed duration of slot `i`, in microseconds.
    pub fn max_duration_us(&self, i: usize) -> (n: u32)
        requires
            self.wf(),
            i < MAX_TASKS,
        ensures
            n == self@.md[i as int],
    {
        self.task_max_duration_us[i]
    }

    /// The name label of slot `i`.
    pub fn name(&self, i: usize) -> (n: [u8; 8])
        requires
            self.wf(),
            i < MAX_TASKS,
        ensures
            n@ == self@.names[i as int],
    {
        self.task_name[i]
    }

    /// Label slot `i` with the owning task's name.
    pub fn set_name(&mut self, i: usize, name: [u8; 8])
        requires
            old(self).wf(),
            i < MAX_TASKS,
        ensures
            final(self).wf(),
            final(self)@.rc == old(self)@.rc,
            final(self)@.ms == old(self)@.ms,
            final(self)@.md == old(self)@.md,
            final(self)@.names =~= old(self)@.names.update(i as int, name@),
    {
        self.task_name[i] = name;
    }

    /// Fold one observed run into slot `i`: bump the run count (sticking at
    /// the top of its range) and keep the worst duration and stack reading.
    pub fn record(&mut self, i: usize, duration_us: u32, stack: usize)
        requires
            old(self).wf(),
            i < MAX_TASKS,
        ensures
            final(self).wf(),
            final(self)@ == record_spec(old(self)@, i as int, duration_us, stack),
    {
        let rc = self.task_run_count[i];
        let new_rc: u32 = if rc < u32::MAX {
            rc + 1
        } else {
            rc
        };
        self.task_run_count[i] = new_rc;
        let ms = self.task_max_stack[i];
        let new_ms: usize = if stack > ms {
            stack
        } else {
            ms
        };
        self.task_max_stack[i] = new_ms;
        let md = self.task_max_duration_us[i];
        let new_md: u32 = if duration_us > md {
            duration_us
        } else {
            md
        };
        self.task_max_duration_us[i] = new_md;
        proof {
            assert(self@.rc =~= record_spec(old(self)@, i as int, duration_us, stack).rc);
            assert(self@.ms =~= record_spec(old(self)@, i as int, duration_us, stack).ms);
            assert(self@.md =~= record_spec(old(self)@, i as int, duration_us, stack).md);
        }
    }

    /// Zero exactly slot `i`'s three counters, leaving every other slot and
    /// all the name labels untouched.
    pub fn reset(&mut self, i: usize)
        requires
            old(self).wf(),
            i < MAX_TASKS,
        ensures
            final(self).wf(),
            final(self)@ == reset_slot(old(self)@, i as int),
    {
        self.task_run_count[i] = 0;
        self.task_max_stack[i] = 0;
        self.task_max_duration_us[i] = 0;
        proof {
            assert(self@.rc =~= reset_slot(old(self)@, i as int).rc);
            assert(self@.ms =~= reset_slot(old(self)@, i as int).ms);
            assert(self@.md =~= reset_slot(old(self)@, i as int).md);
        }
    }
}

/// One recording step at the spec level: what [`Metrics::record`] does to
/// the run-count and worst-duration columns of slot `i`.
pub open spec fn record_step(rc: Seq<u32>, md: Seq<u32>, i: int, d: u32) -> (Seq<u32>, Seq<u32>) {
    (rc.update(i, sat_inc(rc[i])), md.update(i, max_u32(md[i], d)))
}

/// Fold a whole sequence of observed durations into slot `i`.
pub open spec fn apply_durations(rc: Seq<u32>, md: Seq<u32>, i: int, ds: Seq<u32>) -> (Seq<
    u32,
>, Seq<u32>)
    decreases ds.len(),
{
    if ds.len() == 0 {
        (rc, md)
    } else {
        let stepped = record_step(rc, md, i, ds[0]);
        apply_durations(stepped.0, stepped.1, i, ds.drop_first())
    }
}

/// The largest duration in a sequence, or zero if it is empty.
pub open spec fn seq_max_u32(ds: Seq<u32>) -> u32
    decreases ds.len(),
{
    if ds.len() == 0 {
        0
    } else {
        max_u32(ds[0], seq_max_u32(ds.drop_first()))
    }
}

/// After a task in slot `i` executes `R` times with observed durations
/// `ds[0]..ds[R-1]`, starting from a freshly reset slot, the slot's run
/// count equals `R` and its worst duration equals the largest observed
/// duration, while every other slot is untouched.
pub proof fn lemma_metrics_epoch(rc: Seq<u32>, md: Seq<u32>, i: int, ds: Seq<u32>)
    requires
        0 <= i < rc.len(),
        i < md.len(),
        rc[i] == 0,
        md[i] == 0,
        ds.len() <= u32::MAX,
    ensures
        apply_durations(rc, md, i, ds).0 == rc.update(i, ds.len() as u32),
        apply_durations(rc, md, i, ds).1 == md.update(i, seq_max_u32(ds)),
        forall|j: int|
            0 <= j < rc.len() && j != i ==> #[trigger] apply_durations(rc, md, i, ds).0[j] == rc[j],
        forall|j: int|
            0 <= j < md.len() && j != i ==> #[trigger] apply_durations(rc, md, i, ds).1[j] == md[j],
{
    lemma_apply_durations_general(rc, md, i, ds);
    assert(apply_durations(rc, md, i, ds).0 =~= rc.update(i, ds.len() as u32));
    assert(apply_durations(rc, md, i, ds).1 =~= md.update(i, seq_max_u32(ds)));
}

/// Folding `ds` into slot `i` adds `ds.len()` to the run count and takes
/// the maximum of the worst duration with the largest of `ds`, as long as
/// the run count does not reach the top of its range.
pub proof fn lemma_apply_durations_general(rc: Seq<u32>, md: Seq<u32>, i: int, ds: Seq<u32>)
    requires
        0 <= i < rc.len(),
        i < md.len(),
        rc[i] + ds.len() <= u32::MAX,
    ensures
        apply_durations(rc, md, i, ds).0 =~= rc.update(i, (rc[i] + ds.len()) as u32),
        apply_durations(rc, md, i, ds).1 =~= md.update(i, max_u32(md[i], seq_max_u32(ds))),
    decreases ds.len(),
{
    if ds.len() == 0 {
        assert(rc.update(i, rc[i]) =~= rc);
        assert(md.update(i, md[i]) =~= md);
    } else {
        let stepped = record_step(rc, md, i, ds[0]);
        lemma_apply_durations_general(stepped.0, stepped.1, i, ds.drop_first());
        assert(stepped.0[i] == rc[i] + 1);
        assert(stepped.0.update(i, (rc[i] + ds.len()) as u32) =~= rc.update(
            i,
            (rc[i] + ds.len()) as u32,
        ));
        assert(stepped.1.update(i, max_u32(max_u32(md[i], ds[0]), seq_max_u32(ds.drop_first())))
            =~= md.update(i, max_u32(md[i], seq_max_u32(ds))));
    }
}

} // verus!
