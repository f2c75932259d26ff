//! The configuration of one workload and the rules that make it runnable.

use vstd::prelude::*;
use vstd::std_specs::convert::FromSpecImpl;

verus! {

/// Bytes in a KiB.
pub const KB: usize = 1 << 10;

/// Bytes in a MiB.
pub const MB: usize = KB << 10;

/// Bytes in a GiB.
pub const GB: usize = MB << 10;

/// Bytes in a TiB, where a `usize` can hold them.
pub const TB: usize = GB << 10;

/// The most slots that a collection sets aside before it holds anything.
/// One that is to hold more grows as it fills.
pub const RESERVE_MAX: usize = 1048576;

/// The bytes that the report on one task takes, at most.
pub const REPORT_BYTES: usize = 128;

/// Why a workload could not be set up.
#[derive(Clone, Copy, Debug, PartialEq, Eq)]
pub enum BenchError {
    /// The parameters break one of the rules of `Params::valid`.
    InvalidConfig,
    /// The worker pool could not be created.
    PoolConstructionFailure,
}

/// A probability written as `numerator / denominator`.
#[derive(Clone, Copy, Debug, PartialEq, Eq)]
pub struct Probability {
    pub numerator: u32,
    pub denominator: u32,
}

impl Probability {
    /// The ratio denotes a number between 0 and 1, both included.
    pub open spec fn valid(self) -> bool {
        0 < self.denominator && self.numerator <= self.denominator
    }

    /// The ratio is exactly 0: the event never happens.
    pub open spec fn impossible(self) -> bool {
        self.valid() && self.numerator == 0
    }

    /// The ratio is exactly 1: the event always happens.
    pub open spec fn certain(self) -> bool {
        self.valid() && self.numerator == self.denominator
    }

    pub fn new(numerator: u32, denominator: u32) -> (p: Probability)
        ensures
            p.numerator == numerator,
            p.denominator == denominator,
    {
        Probability { numerator, denominator }
    }

    /// The probability 0.
    pub fn zero() -> (p: Probability)
        ensures
            p.impossible(),
            p == (Probability { numerator: 0, denominator: 1 }),
    {
        Probability { numerator: 0, denominator: 1 }
    }

    /// The probability 1.
    pub fn one() -> (p: Probability)
        ensures
            p.certain(),
            p == (Probability { numerator: 1, denominator: 1 }),
    {
        Probability { numerator: 1, denominator: 1 }
    }

    pub fn is_valid(&self) -> (ok: bool)
        ensures
            ok == self.valid(),
    {
        0 < self.denominator && self.numerator <= self.denominator
    }
}

/// One workload: how large, how many and how long-lived the buffers are, and
/// how the work is spread out.
#[derive(Clone, Copy, Debug, PartialEq, Eq)]
pub struct Params {
    /// Most buffers a task keeps alive at once.
    pub keep_max: usize,
    /// Chance that a fresh buffer is kept instead of released at once.
    pub keep_prob: Probability,
    /// Largest buffer size in bytes; the smallest is 1.
    pub max_size: usize,
    /// Buffers that one task allocates.
    pub iters_per_task: usize,
    /// Trials that the harness times.
    pub sample_size: usize,
    /// Tasks in one trial.
    pub tasks: usize,
    /// Workers in the pool.
    pub threads: usize,
}

/// Values given on the command line; a field left out keeps its default.
#[derive(Clone, Copy, Debug, PartialEq, Eq)]
pub struct Options {
    pub keep_max: Option<usize>,
    pub keep_prob: Option<Probability>,
    pub max_size: Option<usize>,
    pub iters_per_task: Option<usize>,
    pub sample_size: Option<usize>,
    pub tasks: Option<usize>,
    pub threads: Option<usize>,
}

impl Params {
    /// The workload can run: there is a size to draw, the keep probability
    /// lies in [0, 1], and the pool has a worker. Two bounds come from the
    /// machine. No buffer can be larger than `isize::MAX` bytes, so a larger
    /// `max_size` is no size range. A trial reports on each of its tasks,
    /// and the reports of one trial must fit into one allocation.
    pub open spec fn valid(self) -> bool {
        &&& 1 <= self.max_size <= isize::MAX
        &&& self.keep_prob.valid()
        &&& 1 <= self.threads
        &&& self.tasks * REPORT_BYTES <= isize::MAX
    }

    /// The configuration used where nothing else is asked for: 8 tasks on 4
    /// workers, 10000 buffers of up to 64 KiB per task, 1 in 100 kept, at
    /// most 64 kept at once, 20 timed trials.
    pub open spec fn defaults() -> Params {
        Params {
            keep_max: 64,
            keep_prob: Probability { numerator: 1, denominator: 100 },
            max_size: 65536,
            iters_per_task: 10000,
            sample_size: 20,
            tasks: 8,
            threads: 4,
        }
    }

    /// `base` with every field that `opt` names replaced.
    pub open spec fn overridden(base: Params, opt: Options) -> Params {
        Params {
            keep_max: opt.keep_max.unwrap_or(base.keep_max),
            keep_prob: opt.keep_prob.unwrap_or(base.keep_prob),
            max_size: opt.max_size.unwrap_or(base.max_size),
            iters_per_task: opt.iters_per_task.unwrap_or(base.iters_per_task),
            sample_size: opt.sample_size.unwrap_or(base.sample_size),
            tasks: opt.tasks.unwrap_or(base.tasks),
            threads: opt.threads.unwrap_or(base.threads),
        }
    }

    pub fn is_valid(&self) -> (ok: bool)
        ensures
            ok == self.valid(),
    {
        1 <= self.max_size && self.max_size <= isize::MAX as usize && self.keep_prob.is_valid()
            && 1 <= self.threads && self.tasks <= isize::MAX as usize / REPORT_BYTES
    }

    /// The buffers that one trial allocates, over all its tasks.
    pub fn total_iterations(&self) -> (total: u128)
        ensures
            total == self.iters_per_task * self.tasks,
    {
        assert(self.iters_per_task * self.tasks <= 0xffff_ffff_ffff_ffff * 0xffff_ffff_ffff_ffff)
            by (nonlinear_arith)
            requires
                0 <= self.iters_per_task <= 0xffff_ffff_ffff_ffff,
                0 <= self.tasks <= 0xffff_ffff_ffff_ffff,
        ;
        self.iters_per_task as u128 * self.tasks as u128
    }

    /// Accepts a valid configuration and rejects every other one.
    pub fn validate(&self) -> (r: Result<(), BenchError>)
        ensures
            self.valid() ==> r == Ok::<(), BenchError>(()),
            !self.valid() ==> r == Err::<(), BenchError>(BenchError::InvalidConfig),
    {
        if self.is_valid() {
            Ok(())
        } else {
            Err(BenchError::InvalidConfig)
        }
    }
}

impl Default for Params {
    fn default() -> (p: Params)
        ensures
            p == Params::defaults(),
            p.valid(),
    {
        Params {
            keep_max: 64,
            keep_prob: Probability { numerator: 1, denominator: 100 },
            max_size: 65536,
            iters_per_task: 10000,
            sample_size: 20,
            tasks: 8,
            threads: 4,
        }
    }
}

impl From<Options> for Params {
    fn from(opt: Options) -> (p: Params) {
        let defaults = Params::default();
        Params {
            keep_max: opt.keep_max.unwrap_or(defaults.keep_max),
            keep_prob: opt.keep_prob.unwrap_or(defaults.keep_prob),
            max_size: opt.max_size.unwrap_or(defaults.max_size),
            iters_per_task: opt.iters_per_task.unwrap_or(defaults.iters_per_task),
            sample_size: opt.sample_size.unwrap_or(defaults.sample_size),
            tasks: opt.tasks.unwrap_or(defaults.tasks),
            threads: opt.threads.unwrap_or(defaults.threads),
        }
    }
}

impl FromSpecImpl<Options> for Params {
    open spec fn obeys_from_spec() -> bool {
        true
    }

    open spec fn from_spec(opt: Options) -> Params {
        Params::overridden(Params::defaults(), opt)
    }
}

} // verus!
