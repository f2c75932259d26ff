//! A stochastic, parallel allocation workload for exercising a memory
//! allocator: many short-lived buffers of random size, a few of which are
//! retained for a while and later evicted in random order.

pub mod bench;
pub mod buffer;
pub mod params;
pub mod reservoir;
pub mod rng;
pub mod stats;
pub mod task;
pub mod trial;
pub mod units;

pub use bench::{run_bench, BenchmarkData};
pub use buffer::Buffer;
pub use params::{
    BenchError, Options, Params, Probability, GB, KB, MB, REPORT_BYTES, RESERVE_MAX, TB,
};
pub use reservoir::Reservoir;
pub use rng::{task_seed, TaskRng};
pub use stats::{stats_dir, stats_file};
pub use task::{run_task, sum_allocations, sum_releases, TaskReport};
pub use trial::{build_pool, pool_or_failure, rayon_boxes};
pub use units::{human_bytes, human_scale, ByteUnit};
