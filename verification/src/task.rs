//! One task: a run of allocate, touch, and keep-or-release decisions.

use vstd::prelude::*;

use crate::buffer::{Buffer, TOUCH_MIN};
use crate::params::Params;
use crate::reservoir::Reservoir;
use crate::rng::{seed_of, TaskRng};

verus! {

/// What one task asked of the allocator.
#[derive(Clone, Copy, Debug, PartialEq, Eq)]
pub struct TaskReport {
    /// The index of the task.
    pub task: usize,
    /// The seed from which the task's generator was made.
    pub seed: u64,
    /// Buffers allocated.
    pub allocations: usize,
    /// Buffers released, the final cleanup included.
    pub releases: usize,
    /// Bytes allocated, over all buffers.
    pub bytes: u128,
    /// Buffers whose first and last byte were written: those of at least
    /// `TOUCH_MIN` bytes.
    pub touched: usize,
    /// Buffers that were kept instead of released at once.
    pub retained: usize,
    /// Kept buffers that were pushed out again before the task ended.
    pub evictions: usize,
    /// The most buffers held at the end of any step.
    pub peak_held: usize,
    /// Buffers still held when the task ended, released by the cleanup.
    pub held_at_exit: usize,
}

impl TaskReport {
    /// Buffers that the task has not given back.
    pub open spec fn live(self) -> int {
        self.allocations - self.releases
    }

    /// The report of a task that ran to its end under `params`: one buffer
    /// per iteration, each of a size that `params` allows, each released.
    /// The touched buffers have at least `TOUCH_MIN` bytes and the others
    /// less. The kept buffers fill the reservoir up to its capacity, which
    /// it never exceeds, and every further one costs an eviction.
    pub open spec fn accounts_for(self, params: Params) -> bool {
        &&& self.allocations == params.iters_per_task
        &&& self.releases == self.allocations
        &&& self.allocations <= self.bytes <= self.allocations * params.max_size
        &&& self.touched <= self.allocations
        &&& params.max_size < TOUCH_MIN ==> self.touched == 0
        &&& self.allocations + (TOUCH_MIN - 1) * self.touched <= self.bytes
        &&& self.bytes <= (TOUCH_MIN - 1) * (self.allocations - self.touched) + params.max_size
            * self.touched
        &&& self.retained <= self.allocations
        &&& params.keep_prob.impossible() ==> self.retained == 0
        &&& params.keep_prob.certain() ==> self.retained == self.allocations
        &&& self.peak_held == vstd::math::min(self.retained as int, params.keep_max as int)
        &&& self.held_at_exit == self.peak_held
        &&& self.evictions == self.retained - self.held_at_exit
    }
}

/// Runs task `task_index` of a trial, with a generator made anew from the
/// seed of that index: `params.iters_per_task` times it allocates a buffer
/// of random size, touches its two ends and either keeps it in the task's
/// reservoir or releases it at once. Every buffer is
/// released before the task returns, and at the end of no step are more
/// than `params.keep_max` buffers held.
pub fn run_task(task_index: usize, params: &Params) -> (report: TaskReport)
    requires
        params.valid(),
    ensures
        report.task == task_index,
        report.seed == seed_of(task_index),
        report.accounts_for(*params),
        report.live() == 0,
        report.peak_held <= params.keep_max,
        params.keep_max == 0 ==> report.peak_held == 0,
{
    let mut rng = TaskRng::for_task(task_index);
    let mut stash = Reservoir::new(params.keep_max);
    let mut report = TaskReport {
        task: task_index,
        seed: rng.made_from(),
        allocations: 0,
        releases: 0,
        bytes: 0,
        touched: 0,
        retained: 0,
        evictions: 0,
        peak_held: 0,
        held_at_exit: 0,
    };

    for i in 0..params.iters_per_task
        invariant
            params.valid(),
            stash.wf(),
            stash.cap() == params.keep_max,
            stash@.len() == vstd::math::min(report.retained as int, params.keep_max as int),
            report.task == task_index,
            report.seed == seed_of(task_index),
            report.allocations == i,
            report.releases == i - stash@.len(),
            i <= report.bytes <= i * params.max_size,
            report.touched <= i,
            params.max_size < TOUCH_MIN ==> report.touched == 0,
            i + (TOUCH_MIN - 1) * report.touched <= report.bytes,
            report.bytes <= (TOUCH_MIN - 1) * (i - report.touched) + params.max_size
                * report.touched,
            report.retained <= i,
            params.keep_prob.impossible() ==> report.retained == 0,
            params.keep_prob.certain() ==> report.retained == i,
            report.evictions == report.retained - stash@.len(),
            report.peak_held == stash@.len(),
            report.held_at_exit == 0,
    {
        let size = rng.size(params.max_size);
        let mut buf = Buffer::allocate(size);
        proof {
            lemma_bytes_fit(
                i as int,
                params.max_size as int,
                report.bytes as int,
                size as int,
                report.touched as int,
            );
        }
        if buf.touch() {
            report.touched = report.touched + 1;
        }
        report.allocations = report.allocations + 1;
        report.bytes = report.bytes + size as u128;

        if rng.keep(params.keep_prob) {
            report.retained = report.retained + 1;
            if stash.retain(buf, &mut rng) {
                report.evictions = report.evictions + 1;
                report.releases = report.releases + 1;
            }
        } else {
            report.releases = report.releases + 1;
        }
        let held = stash.len();
        if held > report.peak_held {
            report.peak_held = held;
        }
    }

    report.held_at_exit = stash.release_all();
    report.releases = report.releases + report.held_at_exit;
    report
}

/// The byte count of `done` buffers of at most `max_size` bytes each has
/// room for one more, in 128 bits, and stays within what the touched and
/// the untouched buffers can hold.
proof fn lemma_bytes_fit(done: int, max_size: int, bytes: int, size: int, touched: int)
    requires
        0 <= done < usize::MAX,
        1 <= size <= max_size <= usize::MAX,
        0 <= touched <= done,
        done <= bytes <= done * max_size,
        done + (TOUCH_MIN - 1) * touched <= bytes,
        bytes <= (TOUCH_MIN - 1) * (done - touched) + max_size * touched,
    ensures
        done + 1 <= bytes + size <= (done + 1) * max_size,
        bytes + size <= u128::MAX,
        size >= TOUCH_MIN ==> done + 1 + (TOUCH_MIN - 1) * (touched + 1) <= bytes + size,
        size < TOUCH_MIN ==> done + 1 + (TOUCH_MIN - 1) * touched <= bytes + size,
        size >= TOUCH_MIN ==> bytes + size <= (TOUCH_MIN - 1) * (done - touched) + max_size * (
            touched + 1),
        size < TOUCH_MIN ==> bytes + size <= (TOUCH_MIN - 1) * (done + 1 - touched) + max_size
            * touched,
{
    let k = TOUCH_MIN - 1;
    assert(k == 7);
    assert(k * (touched + 1) == k * touched + k) by (nonlinear_arith);
    assert(k * (done + 1 - touched) == k * (done - touched) + k) by (nonlinear_arith);
    assert((done + 1) * max_size == done * max_size + max_size) by (nonlinear_arith);
    assert(max_size * (touched + 1) == max_size * touched + max_size) by (nonlinear_arith);
    assert((done + 1) * max_size <= 0xffff_ffff_ffff_ffff * 0xffff_ffff_ffff_ffff)
        by (nonlinear_arith)
        requires
            0 <= done + 1 <= 0xffff_ffff_ffff_ffff,
            0 <= max_size <= 0xffff_ffff_ffff_ffff,
    ;
}

/// The buffers that the tasks of `reports` allocated, all together.
pub open spec fn total_allocations(reports: Seq<TaskReport>) -> int
    decreases reports.len(),
{
    if reports.len() == 0 {
        0
    } else {
        total_allocations(reports.drop_last()) + reports.last().allocations
    }
}

/// The buffers that the tasks of `reports` released, all together.
pub open spec fn total_releases(reports: Seq<TaskReport>) -> int
    decreases reports.len(),
{
    if reports.len() == 0 {
        0
    } else {
        total_releases(reports.drop_last()) + reports.last().releases
    }
}

/// Adds up the allocations of `reports`.
pub fn sum_allocations(reports: &Vec<TaskReport>) -> (total: u128)
    ensures
        total == total_allocations(reports@),
{
    let mut total: u128 = 0;
    for i in 0..reports.len()
        invariant
            total == total_allocations(reports@.take(i as int)),
            total <= i * usize::MAX,
    {
        proof {
            lemma_sum_step(reports@, i as int);
            lemma_count_fits(i as int, reports[i as int].allocations as int);
        }
        total = total + reports[i].allocations as u128;
    }
    assert(reports@.take(reports@.len() as int) =~= reports@);
    total
}

/// Adds up the releases of `reports`.
pub fn sum_releases(reports: &Vec<TaskReport>) -> (total: u128)
    ensures
        total == total_releases(reports@),
{
    let mut total: u128 = 0;
    for i in 0..reports.len()
        invariant
            total == total_releases(reports@.take(i as int)),
            total <= i * usize::MAX,
    {
        proof {
            lemma_sum_step(reports@, i as int);
            lemma_count_fits(i as int, reports[i as int].releases as int);
        }
        total = total + reports[i].releases as u128;
    }
    assert(reports@.take(reports@.len() as int) =~= reports@);
    total
}

/// The totals over the first `i + 1` reports are those over the first `i`
/// and the report after them.
proof fn lemma_sum_step(reports: Seq<TaskReport>, i: int)
    requires
        0 <= i < reports.len(),
    ensures
        total_allocations(reports.take(i + 1)) == total_allocations(reports.take(i))
            + reports[i].allocations,
        total_releases(reports.take(i + 1)) == total_releases(reports.take(i))
            + reports[i].releases,
{
    assert(reports.take(i + 1).drop_last() =~= reports.take(i));
    assert(reports.take(i + 1).last() == reports[i]);
}

/// A sum of `i` counts has room for one more, in 128 bits.
proof fn lemma_count_fits(i: int, count: int)
    requires
        0 <= i < usize::MAX,
        0 <= count <= usize::MAX,
    ensures
        i * usize::MAX + count <= (i + 1) * usize::MAX <= u128::MAX,
{
    assert((i + 1) * usize::MAX == i * usize::MAX + usize::MAX) by (nonlinear_arith);
    assert((i + 1) * usize::MAX <= 0xffff_ffff_ffff_ffff * 0xffff_ffff_ffff_ffff)
        by (nonlinear_arith)
        requires
            0 <= i + 1 <= 0xffff_ffff_ffff_ffff,
            0 <= usize::MAX <= 0xffff_ffff_ffff_ffff,
    ;
}

/// A trial leaves nothing live: over any number of tasks that ran to their
/// end under `params`, there are as many releases as allocations, and as
/// many allocations as tasks times iterations.
pub proof fn lemma_trial_leaves_nothing_live(params: Params, reports: Seq<TaskReport>)
    requires
        forall|t: int| 0 <= t < reports.len() ==> (#[trigger] reports[t]).accounts_for(params),
    ensures
        total_allocations(reports) == reports.len() * params.iters_per_task,
        total_releases(reports) == total_allocations(reports),
    decreases reports.len(),
{
    if reports.len() > 0 {
        let rest = reports.drop_last();
        assert forall|t: int| 0 <= t < rest.len() implies (#[trigger] rest[t]).accounts_for(
            params,
        ) by {
            assert(rest[t] == reports[t]);
        }
        lemma_trial_leaves_nothing_live(params, rest);
        assert(reports[reports.len() - 1].accounts_for(params));
        assert(reports.len() * params.iters_per_task == rest.len() * params.iters_per_task
            + params.iters_per_task) by (nonlinear_arith)
            requires
                rest.len() == reports.len() - 1,
        ;
    } else {
        assert(reports.len() * params.iters_per_task == 0) by (nonlinear_arith)
            requires
                reports.len() == 0,
        ;
    }
}

/// Where no buffer is ever kept, every buffer is released at once: the
/// reservoir stays empty and nothing is evicted.
pub proof fn lemma_never_kept_all_transient(params: Params, report: TaskReport)
    requires
        report.accounts_for(params),
        params.keep_prob.impossible(),
    ensures
        report.retained == 0,
        report.evictions == 0,
        report.held_at_exit == 0,
{
}

/// Where every buffer is kept, the reservoir fills up to its capacity, or
/// to the number of iterations if that is less, and each further buffer
/// costs one eviction.
pub proof fn lemma_always_kept_fills_reservoir(params: Params, report: TaskReport)
    requires
        report.accounts_for(params),
        params.keep_prob.certain(),
    ensures
        report.retained == params.iters_per_task,
        report.peak_held == report.held_at_exit,
        report.held_at_exit == vstd::math::min(
            params.keep_max as int,
            params.iters_per_task as int,
        ),
        report.evictions == params.iters_per_task - report.held_at_exit,
{
}

/// A reservoir without capacity holds nothing: every kept buffer is evicted
/// in the step that kept it, whatever the keep probability.
pub proof fn lemma_zero_capacity_holds_nothing(params: Params, report: TaskReport)
    requires
        report.accounts_for(params),
        params.keep_max == 0,
    ensures
        report.peak_held == 0,
        report.held_at_exit == 0,
        report.evictions == report.retained,
{
}

} // verus!
