//! One trial: every task of a workload, run once on a pool of workers.

use rayon::iter::{IntoParallelIterator, ParallelIterator};
use rayon::{ThreadPool, ThreadPoolBuildError, ThreadPoolBuilder};
use vstd::prelude::*;

use crate::params::{BenchError, Params, REPORT_BYTES};
use crate::rng::seed_of;
use crate::task::{
    lemma_trial_leaves_nothing_live, run_task, total_allocations, total_releases, TaskReport,
};

verus! {

/// `rayon::ThreadPool`, a pool of worker threads, carried through as it
/// is.
#[verifier::external_type_specification]
#[verifier::external_body]
pub struct ExThreadPool(ThreadPool);

/// `rayon::ThreadPoolBuildError`, the reason why a pool was not built. The
/// library never looks inside.
#[verifier::external_type_specification]
#[verifier::external_body]
pub struct ExThreadPoolBuildError(ThreadPoolBuildError);

/// `ThreadPoolBuilder::build`, asked for `threads` workers: a pool, or the
/// reason why the operating system gave none. Which of the two comes back
/// is not for this library to say.
#[verifier::external_body]
fn spawn_pool(threads: usize) -> Result<ThreadPool, ThreadPoolBuildError> {
    ThreadPoolBuilder::new().num_threads(threads).build()
}

/// The reports of one trial under `params`: one for each task, in the order
/// of the tasks, each the report of a task that drew from a generator made
/// from the seed of its index and ran to its end.
pub open spec fn reports_of_trial(reports: Seq<TaskReport>, first: int, params: Params) -> bool {
    forall|t: int|
        0 <= t < reports.len() ==> {
            &&& (#[trigger] reports[t]).task == first + t
            &&& reports[t].seed == seed_of(reports[t].task)
            &&& reports[t].accounts_for(params)
        }
}

/// `ThreadPool::install` around `ParallelIterator::map` and `collect` on the
/// range `first..end`: runs `run_task` once for each index of the range, on
/// the pool's workers, and returns when all have returned. The results
/// stand in the order of the indices, one for each, and each is what
/// `run_task` promises of its result. `collect` sets aside room for all
/// results at once and panics where that is more than `isize::MAX` bytes,
/// which `requires` leaves out: a report takes at most `REPORT_BYTES`.
#[verifier::external_body]
fn dispatch(pool: &ThreadPool, first: usize, end: usize, params: Params) -> (reports: Vec<
    TaskReport,
>)
    requires
        params.valid(),
        first <= end,
        (end - first) * REPORT_BYTES <= isize::MAX,
    ensures
        reports@.len() == end - first,
        reports_of_trial(reports@, first as int, params),
{
    pool.install(
        || (first..end).into_par_iter().map(|task_index| run_task(task_index, &params)).collect(),
    )
}

/// What the caller gets for an attempt to build a pool: the pool itself, or
/// `PoolConstructionFailure` whatever the reason was.
pub fn pool_or_failure(outcome: Result<ThreadPool, ThreadPoolBuildError>) -> (r: Result<
    ThreadPool,
    BenchError,
>)
    ensures
        outcome matches Ok(pool) ==> r == Ok::<ThreadPool, BenchError>(pool),
        outcome is Err ==> r == Err::<ThreadPool, BenchError>(BenchError::PoolConstructionFailure),
{
    match outcome {
        Ok(pool) => Ok(pool),
        Err(_) => Err(BenchError::PoolConstructionFailure),
    }
}

/// Builds a pool of `threads` workers. A pool without workers is refused
/// before anything is asked of the operating system.
pub fn build_pool(threads: usize) -> (r: Result<ThreadPool, BenchError>)
    ensures
        threads == 0 ==> r == Err::<ThreadPool, BenchError>(BenchError::InvalidConfig),
        threads > 0 ==> r is Ok || r == Err::<ThreadPool, BenchError>(
            BenchError::PoolConstructionFailure,
        ),
{
    if threads == 0 {
        Err(BenchError::InvalidConfig)
    } else {
        pool_or_failure(spawn_pool(threads))
    }
}

/// Runs one trial on `pool`: tasks `0..params.tasks`, each exactly once, and
/// returns their reports, in the order of the tasks, when the last one has
/// finished. An invalid configuration is refused before any task starts.
pub fn rayon_boxes(pool: &ThreadPool, params: Params) -> (r: Result<Vec<TaskReport>, BenchError>)
    ensures
        r is Ok <==> params.valid(),
        r matches Err(e) ==> e == BenchError::InvalidConfig,
        r matches Ok(reports) ==> reports@.len() == params.tasks && reports_of_trial(
            reports@,
            0,
            params,
        ),
{
    match params.validate() {
        Ok(()) => Ok(dispatch(pool, 0, params.tasks, params)),
        Err(e) => Err(e),
    }
}

/// A trial leaves nothing live and runs every task to its end: its reports
/// add up to as many releases as allocations, and to as many allocations as
/// tasks times iterations.
pub proof fn lemma_trial_is_balanced(params: Params, reports: Seq<TaskReport>)
    requires
        reports.len() == params.tasks,
        reports_of_trial(reports, 0, params),
    ensures
        total_allocations(reports) == params.tasks * params.iters_per_task,
        total_releases(reports) == total_allocations(reports),
{
    lemma_trial_leaves_nothing_live(params, reports);
}

/// The task of a given index draws from a generator made from the same seed
/// in every trial, whatever the workload and whatever the pool.
pub proof fn lemma_task_seed_is_fixed(
    a: Params,
    b: Params,
    first: Seq<TaskReport>,
    second: Seq<TaskReport>,
    t: int,
)
    requires
        reports_of_trial(first, 0, a),
        reports_of_trial(second, 0, b),
        0 <= t < first.len(),
        t < second.len(),
    ensures
        first[t].task == second[t].task,
        first[t].seed == second[t].seed,
{
}

} // verus!
