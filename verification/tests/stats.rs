use alloc_benches::units::push_decimal;
use alloc_benches::{
    human_bytes, human_scale, stats_dir, stats_file, ByteUnit, Params, Probability, GB, KB, MB,
};

fn decimal(n: u128) -> String {
    let mut s = String::new();
    push_decimal(&mut s, n);
    s
}

#[test]
fn decimal_of_small_numbers() {
    assert_eq!(decimal(0), "0");
    assert_eq!(decimal(7), "7");
    assert_eq!(decimal(9), "9");
    assert_eq!(decimal(10), "10");
    assert_eq!(decimal(1234567890), "1234567890");
}

#[test]
fn decimal_of_the_largest_number() {
    assert_eq!(decimal(u128::MAX), "340282366920938463463374607431768211455");
}

#[test]
fn decimal_is_written_at_the_end() {
    let mut s = String::from("n=");
    push_decimal(&mut s, 405);
    assert_eq!(s, "n=405");
}

#[test]
fn unit_suffixes() {
    assert_eq!(ByteUnit::B.suffix(), "B");
    assert_eq!(ByteUnit::KiB.suffix(), "KiB");
    assert_eq!(ByteUnit::MiB.suffix(), "MiB");
}

#[test]
fn scale_picks_the_largest_unit_and_rounds_down() {
    assert_eq!(human_scale(0), (0, ByteUnit::B));
    assert_eq!(human_scale(1023), (1023, ByteUnit::B));
    assert_eq!(human_scale(KB), (1, ByteUnit::KiB));
    assert_eq!(human_scale(2 * KB - 1), (1, ByteUnit::KiB));
    assert_eq!(human_scale(MB - 1), (1023, ByteUnit::KiB));
    assert_eq!(human_scale(MB), (1, ByteUnit::MiB));
    assert_eq!(human_scale(3 * MB + 5), (3, ByteUnit::MiB));
    assert_eq!(human_scale(GB), (1024, ByteUnit::MiB));
}

#[test]
fn human_bytes_as_text() {
    assert_eq!(human_bytes(0), "0B");
    assert_eq!(human_bytes(512), "512B");
    assert_eq!(human_bytes(KB), "1KiB");
    assert_eq!(human_bytes(64 * KB), "64KiB");
    assert_eq!(human_bytes(MB), "1MiB");
    assert_eq!(human_bytes(16 * GB), "16384MiB");
}

#[test]
fn total_iterations_is_the_product() {
    let p = Params { iters_per_task: 10_000, tasks: 8, ..Params::default() };
    assert_eq!(p.total_iterations(), 80_000);
    let p = Params { iters_per_task: 0, tasks: 8, ..Params::default() };
    assert_eq!(p.total_iterations(), 0);
    let p = Params { iters_per_task: usize::MAX, tasks: usize::MAX, ..Params::default() };
    assert_eq!(p.total_iterations(), (usize::MAX as u128) * (usize::MAX as u128));
}

#[test]
fn directory_names_allocator_and_workers() {
    assert_eq!(
        stats_dir("/root/benches/manual-benches", "native", 4),
        "/root/benches/manual-benches/native_x4"
    );
    assert_eq!(stats_dir("out", "virtual_alloc", 128), "out/virtual_alloc_x128");
}

#[test]
fn file_names_the_workload() {
    let p = Params::default();
    assert_eq!(
        stats_file("out/native_x4", &p),
        "out/native_x4/rayon-bench_iter80000_max64KiB_keep64.json"
    );
    let p = Params {
        keep_max: 0,
        keep_prob: Probability::zero(),
        max_size: MB,
        iters_per_task: 20_000,
        sample_size: 1,
        tasks: 3,
        threads: 1,
    };
    assert_eq!(stats_file("d", &p), "d/rayon-bench_iter60000_max1MiB_keep0.json");
}
