use lightproc::load_balancer::{LoadBalancer, Stats};

#[test]
fn mean_of_three_cores() {
    let mut stats = Stats::new(3).unwrap();
    stats.set_queue_depth(0, 4);
    stats.set_queue_depth(1, 2);
    stats.set_queue_depth(2, 6);

    LoadBalancer::sample(&mut stats);

    assert_eq!(stats.mean_level, 4);
    assert_eq!(stats.smp_queues, vec![4, 2, 6]);
    assert_eq!(stats.global_run_queue, 0);
}

#[test]
fn zero_execution_units_is_refused() {
    assert!(Stats::new(0).is_none());
}

#[test]
fn fresh_snapshot_starts_at_zero() {
    let stats = Stats::new(2).unwrap();
    assert_eq!(stats.global_run_queue, 0);
    assert_eq!(stats.mean_level, 0);
    assert_eq!(stats.smp_queues, vec![0, 0]);
}

#[test]
fn single_core_mean_is_its_depth() {
    let mut stats = Stats::new(1).unwrap();
    stats.set_queue_depth(0, 5);
    LoadBalancer::sample(&mut stats);
    assert_eq!(stats.mean_level, 5);
}

#[test]
fn mean_rounds_down() {
    let mut stats = Stats::new(2).unwrap();
    stats.set_queue_depth(0, 3);
    stats.set_queue_depth(1, 2);
    LoadBalancer::sample(&mut stats);
    assert_eq!(stats.mean_level, 2);
}

#[test]
fn skipped_cycle_keeps_previous_mean() {
    let mut stats = Stats::new(3).unwrap();
    stats.set_queue_depth(0, 4);
    stats.set_queue_depth(1, 2);
    stats.set_queue_depth(2, 6);
    LoadBalancer::sample(&mut stats);
    assert_eq!(stats.mean_level, 4);

    // A contended cycle performs no recomputation: the counters may move on
    // while the published mean stays what the last sample produced.
    stats.set_queue_depth(0, 10);
    assert_eq!(stats.mean_level, 4);

    // The next acquired cycle republishes the mean of the fresh counters.
    LoadBalancer::sample(&mut stats);
    assert_eq!(stats.mean_level, 6);
}

#[test]
fn global_run_queue_is_tracked_separately() {
    let mut stats = Stats::new(2).unwrap();
    stats.set_global_run_queue(9);
    stats.set_queue_depth(0, 1);
    stats.set_queue_depth(1, 1);
    LoadBalancer::sample(&mut stats);
    assert_eq!(stats.global_run_queue, 9);
    assert_eq!(stats.mean_level, 1);
}
