use vstd::prelude::*;

verus! {

/// The shared load-statistics snapshot: the global run-queue length, the
/// queue depth of each execution unit (indexed by core, so the keys are
/// unique by construction), and the derived mean level.  The counters are
/// maintained by the worker pool; the mean is owned and republished solely
/// by the load balancer's sampling cycle, and may lag the counters by up to
/// one sampling interval by design.
pub struct Stats {
    pub global_run_queue: usize,
    pub mean_level: usize,
    pub smp_queues: Vec<usize>,
}

/// The sum of the per-core queue depths.
pub open spec fn sum_queues(q: Seq<usize>) -> int
    decreases q.len(),
{
    if q.len() == 0 {
        0
    } else {
        sum_queues(q.drop_last()) + q.last()
    }
}

proof fn lemma_sum_queues_nonneg(q: Seq<usize>)
    ensures
        sum_queues(q) >= 0,
    decreases q.len(),
{
    if q.len() > 0 {
        lemma_sum_queues_nonneg(q.drop_last());
    }
}

proof fn lemma_sum_queues_step(q: Seq<usize>, i: int)
    requires
        0 <= i < q.len(),
    ensures
        sum_queues(q.take(i + 1)) == sum_queues(q.take(i)) + q[i],
{
    assert(q.take(i + 1).drop_last() =~= q.take(i));
}

proof fn lemma_sum_queues_take_le(q: Seq<usize>, i: int)
    requires
        0 <= i <= q.len(),
    ensures
        sum_queues(q.take(i)) <= sum_queues(q),
    decreases q.len() - i,
{
    if i == q.len() {
        assert(q.take(i) =~= q);
    } else {
        lemma_sum_queues_step(q, i);
        lemma_sum_queues_take_le(q, i + 1);
    }
}

impl Stats {
    /// A fresh snapshot for `core_count` execution units: every counter and
    /// the mean start at zero.  At least one execution unit must be
    /// enumerable — the balancer divides by their number — so a count of
    /// zero is refused, and startup fails instead of dividing by zero.
    pub fn new(core_count: usize) -> (r: Option<Stats>)
        ensures
            (r is Some) <==> core_count >= 1,
            r matches Some(s) ==> {
                &&& s.global_run_queue == 0
                &&& s.mean_level == 0
                &&& s.smp_queues@.len() == core_count
                &&& forall|i: int| 0 <= i < core_count ==> s.smp_queues@[i] == 0
            },
    {
        if core_count == 0 {
            None
        } else {
            let mut queues: Vec<usize> = Vec::new();
            let mut i: usize = 0;
            while i < core_count
                invariant
                    i <= core_count,
                    queues@.len() == i,
                    forall|j: int| 0 <= j < i ==> queues@[j] == 0,
                decreases core_count - i,
            {
                queues.push(0);
                i = i + 1;
            }
            Some(Stats { global_run_queue: 0, mean_level: 0, smp_queues: queues })
        }
    }

    /// Record the queue depth of one execution unit (the worker-pool side
    /// write).  Nothing else in the snapshot moves.
    pub fn set_queue_depth(&mut self, core: usize, depth: usize)
        requires
            core < old(self).smp_queues@.len(),
        ensures
            final(self).smp_queues@ == old(self).smp_queues@.update(core as int, depth),
            final(self).global_run_queue == old(self).global_run_queue,
            final(self).mean_level == old(self).mean_level,
    {
        self.smp_queues[core] = depth;
    }

    /// Record the global run-queue length (the worker-pool side write).
    pub fn set_global_run_queue(&mut self, depth: usize)
        ensures
            final(self).global_run_queue == depth,
            final(self).mean_level == old(self).mean_level,
            final(self).smp_queues@ == old(self).smp_queues@,
    {
        self.global_run_queue = depth;
    }
}

/// The load balancer: its sampling cycle recomputes the published mean from
/// the per-core counters.  The background cadence — the dedicated thread,
/// the sleep, the yield, and skipping a cycle when the statistics lock is
/// contended — belongs to the embedding runtime; each acquired cycle does
/// exactly what `sample` states.
pub struct LoadBalancer;

impl LoadBalancer {
    /// One sampling cycle: republish the mean level as the sum of all
    /// per-core queue depths, integer-divided by the number of execution
    /// units.  The counters themselves are left untouched, so a skipped
    /// (contended) cycle merely leaves the previous mean in place and the
    /// next cycle computes the same function again.
    pub fn sample(stats: &mut Stats)
        requires
            old(stats).smp_queues@.len() >= 1,
            sum_queues(old(stats).smp_queues@) <= usize::MAX,
        ensures
            final(stats).mean_level == sum_queues(old(stats).smp_queues@) / (old(
                stats,
            ).smp_queues@.len() as int),
            final(stats).smp_queues@ == old(stats).smp_queues@,
            final(stats).global_run_queue == old(stats).global_run_queue,
    {
        let mut sum: usize = 0;
        let mut i: usize = 0;
        proof {
            lemma_sum_queues_nonneg(stats.smp_queues@);
        }
        while i < stats.smp_queues.len()
            invariant
                i <= stats.smp_queues@.len(),
                sum == sum_queues(stats.smp_queues@.take(i as int)),
                sum_queues(stats.smp_queues@) <= usize::MAX,
                stats.smp_queues@ == old(stats).smp_queues@,
                stats.global_run_queue == old(stats).global_run_queue,
            decreases stats.smp_queues@.len() - i,
        {
            proof {
                lemma_sum_queues_step(stats.smp_queues@, i as int);
                lemma_sum_queues_take_le(stats.smp_queues@, i + 1);
                lemma_sum_queues_nonneg(stats.smp_queues@.take(i as int));
            }
            sum = sum + stats.smp_queues[i];
            i = i + 1;
        }
        proof {
            assert(stats.smp_queues@.take(stats.smp_queues@.len() as int) =~= stats.smp_queues@);
        }
        stats.mean_level = sum / stats.smp_queues.len();
    }
}

} // verus!
