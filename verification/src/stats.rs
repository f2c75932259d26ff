//! The names under which the timings of a workload are stored.

use vstd::prelude::*;
use vstd::string::StringExecFns;

use crate::params::Params;
use crate::units::{decimal, human, human_bytes, push_decimal};

verus! {

/// The directory for one allocator and one worker count, below `base`:
/// `base/allocator_xN` for `N` workers.
pub open spec fn dir_name(base: Seq<char>, allocator: Seq<char>, threads: usize) -> Seq<char> {
    base + "/"@ + allocator + "_x"@ + decimal(threads as nat)
}

/// The file for one workload, below `dir`. Its name tells the buffers per
/// trial, the largest buffer size and the most buffers kept.
pub open spec fn file_name(dir: Seq<char>, params: Params) -> Seq<char> {
    dir + "/rayon-bench_iter"@ + decimal((params.iters_per_task * params.tasks) as nat) + "_max"@
        + human(params.max_size) + "_keep"@ + decimal(params.keep_max as nat) + ".json"@
}

/// The directory in which the timings of `allocator` on `threads` workers
/// are stored.
pub fn stats_dir(base: &str, allocator: &str, threads: usize) -> (dir: String)
    ensures
        dir@ == dir_name(base@, allocator@, threads),
{
    let mut dir = String::from_str(base);
    dir.append("/");
    dir.append(allocator);
    dir.append("_x");
    push_decimal(&mut dir, threads as u128);
    dir
}

/// The file in which the timings of the workload `params` are stored.
pub fn stats_file(dir: &str, params: &Params) -> (file: String)
    ensures
        file@ == file_name(dir@, *params),
{
    let mut file = String::from_str(dir);
    file.append("/rayon-bench_iter");
    push_decimal(&mut file, params.total_iterations());
    file.append("_max");
    let size = human_bytes(params.max_size);
    file.append(size.as_str());
    file.append("_keep");
    push_decimal(&mut file, params.keep_max as u128);
    file.append(".json");
    file
}

} // verus!
