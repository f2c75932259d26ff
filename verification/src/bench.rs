//! The measurement harness: trials, each timed on its own.

use rayon::ThreadPool;
use std::time::{Duration, Instant};
use vstd::prelude::*;

use crate::params::{BenchError, Params, RESERVE_MAX};
use crate::task::TaskReport;
use crate::trial::{rayon_boxes, reports_of_trial};

verus! {

/// `std::time::Instant`, a reading of the monotonic clock, carried through
/// as it is.
#[verifier::external_type_specification]
#[verifier::external_body]
pub struct ExInstant(Instant);

/// `Instant::now`: the clock as it stands. Nothing is claimed of the
/// reading.
pub assume_specification[ Instant::now ]() -> Instant;

/// `Instant::elapsed`: the time gone by since `start` was read. Nothing is
/// claimed of its length.
pub assume_specification[ Instant::elapsed ](start: &Instant) -> Duration;

/// The outcome of a measurement run.
#[derive(Clone, Debug)]
pub struct BenchmarkData {
    /// The workload that was measured.
    pub params: Params,
    /// How long each trial took, in the order in which they ran.
    pub timings: Vec<Duration>,
    /// What the tasks of each trial reported, trial by trial.
    pub reports: Vec<Vec<TaskReport>>,
}

/// Runs `params.sample_size` trials on `pool`, one after the other, and
/// times each from just before its tasks are dispatched to just after the
/// last of them has finished. With no trial to run nothing is dispatched
/// and nothing is checked; otherwise an invalid configuration is refused
/// before the first task starts.
pub fn run_bench(pool: &ThreadPool, params: Params) -> (r: Result<BenchmarkData, BenchError>)
    ensures
        r is Ok <==> params.valid() || params.sample_size == 0,
        r matches Err(e) ==> e == BenchError::InvalidConfig,
        r matches Ok(data) ==> {
            &&& data.params == params
            &&& data.timings@.len() == params.sample_size
            &&& data.reports@.len() == params.sample_size
            &&& forall|k: int|
                0 <= k < data.reports@.len() ==> (#[trigger] data.reports@[k])@.len()
                    == params.tasks && reports_of_trial(data.reports@[k]@, 0, params)
        },
        params.sample_size == 0 ==> (r matches Ok(data) && data.timings@ == Seq::<Duration>::empty()),
{
    let slots = if params.sample_size > RESERVE_MAX {
        RESERVE_MAX
    } else {
        params.sample_size
    };
    let mut data = BenchmarkData {
        params: params,
        timings: Vec::with_capacity(slots),
        reports: Vec::with_capacity(slots),
    };
    for i in 0..params.sample_size
        invariant
            data.params == params,
            data.timings@.len() == i,
            data.reports@.len() == i,
            forall|k: int|
                0 <= k < data.reports@.len() ==> (#[trigger] data.reports@[k])@.len()
                    == params.tasks && reports_of_trial(data.reports@[k]@, 0, params),
            i > 0 ==> params.valid(),
    {
        let start = Instant::now();
        let trial = rayon_boxes(pool, params);
        let taken = start.elapsed();
        match trial {
            Ok(reports) => {
                data.timings.push(taken);
                data.reports.push(reports);
            },
            Err(e) => {
                return Err(e);
            },
        }
    }
    Ok(data)
}

} // verus!
