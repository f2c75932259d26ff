use alloc_benches::{
    run_task, sum_allocations, sum_releases, task_seed, Params, Probability, TaskReport,
    REPORT_BYTES,
};

fn params(keep_prob: Probability, keep_max: usize, iters_per_task: usize) -> Params {
    Params {
        keep_max,
        keep_prob,
        max_size: 1024,
        iters_per_task,
        sample_size: 1,
        tasks: 4,
        threads: 4,
    }
}

#[test]
fn task_without_iterations_does_nothing() {
    let report = run_task(0, &params(Probability::new(1, 2), 8, 0));
    assert_eq!(
        report,
        TaskReport {
            task: 0,
            seed: 0xA110C,
            allocations: 0,
            releases: 0,
            bytes: 0,
            touched: 0,
            retained: 0,
            evictions: 0,
            peak_held: 0,
            held_at_exit: 0,
        }
    );
}

#[test]
fn task_releases_all_it_allocates() {
    for task in 0..8 {
        for keep_max in [0usize, 1, 5, 64] {
            let p = params(Probability::new(1, 4), keep_max, 500);
            let report = run_task(task, &p);
            assert_eq!(report.allocations, 500);
            assert_eq!(report.releases, report.allocations);
        }
    }
}

#[test]
fn task_accounts_for_kept_buffers() {
    for task in 0..8 {
        let p = params(Probability::new(1, 4), 5, 500);
        let report = run_task(task, &p);
        assert!(report.retained <= report.allocations);
        assert!(report.retained > 50 && report.retained < 250);
        assert_eq!(report.peak_held, report.retained.min(5));
        assert_eq!(report.held_at_exit, report.peak_held);
        assert_eq!(report.evictions, report.retained - report.held_at_exit);
        assert!(report.peak_held <= 5);
    }
}

#[test]
fn task_bytes_lie_between_the_bounds() {
    let p = params(Probability::new(1, 100), 5, 1000);
    let report = run_task(3, &p);
    assert!(report.bytes >= 1000);
    assert!(report.bytes <= 1000 * 1024);
    assert!(report.bytes > 300 * 1024 && report.bytes < 700 * 1024);
}

#[test]
fn task_of_one_byte_buffers_allocates_one_byte_each() {
    let p = Params { max_size: 1, ..params(Probability::new(1, 2), 3, 250) };
    let report = run_task(0, &p);
    assert_eq!(report.bytes, 250);
}

#[test]
fn task_with_zero_capacity_holds_nothing() {
    for keep_prob in [Probability::zero(), Probability::new(1, 2), Probability::one()] {
        let report = run_task(1, &params(keep_prob, 0, 300));
        assert_eq!(report.peak_held, 0);
        assert_eq!(report.held_at_exit, 0);
        assert_eq!(report.evictions, report.retained);
        assert_eq!(report.releases, 300);
    }
}

#[test]
fn same_task_index_gives_the_same_report() {
    let p = params(Probability::new(1, 3), 7, 2000);
    for task in [0usize, 1, 2, 17, 1 << 40] {
        assert_eq!(run_task(task, &p), run_task(task, &p));
    }
}

#[test]
fn different_task_indices_draw_differently() {
    let p = params(Probability::new(1, 3), 7, 2000);
    let a = run_task(0, &p);
    let b = run_task(1, &p);
    assert_ne!(a.bytes, b.bytes);
}

#[test]
fn scenario_never_keep_four_tasks() {
    let p = params(Probability::zero(), 0, 1000);
    let mut allocations = 0;
    let mut releases = 0;
    for task in 0..p.tasks {
        let report = run_task(task, &p);
        assert_eq!(report.allocations, 1000);
        assert_eq!(report.releases, 1000);
        assert_eq!(report.task, task);
        assert_eq!(report.retained, 0);
        assert_eq!(report.evictions, 0);
        assert_eq!(report.peak_held, 0);
        assert_eq!(report.held_at_exit, 0);
        allocations += report.allocations;
        releases += report.releases;
    }
    assert_eq!(allocations, 4000);
    assert_eq!(releases, 4000);
}

#[test]
fn scenario_always_keep_capacity_five() {
    let p = Params { tasks: 1, ..params(Probability::one(), 5, 100) };
    let report = run_task(0, &p);
    assert_eq!(report.task, 0);
    assert_eq!(report.allocations, 100);
    assert_eq!(report.retained, 100);
    assert_eq!(report.peak_held, 5);
    assert_eq!(report.held_at_exit, 5);
    assert_eq!(report.evictions, 95);
    assert_eq!(report.releases, 100);
}

#[test]
fn always_keep_with_room_for_all_evicts_nothing() {
    let report = run_task(0, &params(Probability::one(), 100, 30));
    assert_eq!(report.retained, 30);
    assert_eq!(report.held_at_exit, 30);
    assert_eq!(report.evictions, 0);
    assert_eq!(report.releases, 30);
}

#[test]
fn always_keep_with_exactly_enough_room() {
    let report = run_task(0, &params(Probability::one(), 30, 30));
    assert_eq!(report.held_at_exit, 30);
    assert_eq!(report.evictions, 0);
    let report = run_task(0, &params(Probability::one(), 29, 30));
    assert_eq!(report.held_at_exit, 29);
    assert_eq!(report.evictions, 1);
}

#[test]
fn report_names_its_task_and_seed() {
    let p = params(Probability::new(1, 2), 3, 10);
    for task in [0usize, 1, 5, 1000] {
        let report = run_task(task, &p);
        assert_eq!(report.task, task);
        assert_eq!(report.seed, task_seed(task));
    }
    assert_eq!(run_task(1, &p).seed, 0xA110D);
}

#[test]
fn seed_does_not_depend_on_the_workload() {
    let a = params(Probability::new(1, 2), 3, 10);
    let b = Params { tasks: 99, threads: 1, sample_size: 7, ..params(Probability::zero(), 0, 50) };
    assert_eq!(run_task(4, &a).seed, run_task(4, &b).seed);
}

#[test]
fn report_fits_the_room_set_aside_for_it() {
    assert!(std::mem::size_of::<TaskReport>() <= REPORT_BYTES);
}

#[test]
fn small_buffers_are_never_touched() {
    let p = Params { max_size: 7, ..params(Probability::new(1, 2), 3, 400) };
    let report = run_task(2, &p);
    assert_eq!(report.touched, 0);
    assert!(report.bytes <= 7 * 400);
}

#[test]
fn buffers_of_eight_bytes_and_more_are_touched() {
    let p = Params { max_size: 8, ..params(Probability::new(1, 2), 3, 4000) };
    let report = run_task(2, &p);
    assert!(report.touched > 300 && report.touched < 700);
    assert!(report.bytes >= 4000 + 7 * report.touched as u128);
    assert!(report.bytes <= 7 * (4000 - report.touched as u128) + 8 * report.touched as u128);
}

#[test]
fn large_buffers_are_mostly_touched() {
    let p = params(Probability::zero(), 0, 1000);
    let report = run_task(0, &p);
    assert!(report.touched > 950 && report.touched <= 1000);
    assert!(report.bytes >= 1000 + 7 * report.touched as u128);
}

#[test]
fn sums_over_reports() {
    let p = params(Probability::new(1, 3), 4, 250);
    let reports: Vec<TaskReport> = (0..6).map(|t| run_task(t, &p)).collect();
    assert_eq!(sum_allocations(&reports), 1500);
    assert_eq!(sum_releases(&reports), 1500);
    assert_eq!(sum_allocations(&Vec::new()), 0);
    assert_eq!(sum_releases(&Vec::new()), 0);
}
