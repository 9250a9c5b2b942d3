use mmck_queue::capacity::{plan, queue_capacity, worker_count, CapacityPlan, ServiceTime};

fn ms(v: u64) -> ServiceTime {
    ServiceTime::from_millis(v).unwrap()
}

#[test]
fn worker_count_keeps_one_core_free() {
    assert_eq!(worker_count(8), 7);
    assert_eq!(worker_count(2), 1);
    assert_eq!(worker_count(64), 63);
}

#[test]
fn single_core_host_runs_one_worker() {
    assert_eq!(worker_count(1), 1);
    assert_eq!(worker_count(0), 1);
    for latency in [1u64, 500, 100_000] {
        for service in [1u64, 7, 100, 5000] {
            let p = plan(1, latency, ms(service)).unwrap();
            assert_eq!(p.workers, 1);
        }
    }
}

#[test]
fn capacity_follows_latency_budget() {
    assert_eq!(queue_capacity(7, 500, ms(100)), Some(35));
    assert_eq!(queue_capacity(4, 1000, ms(30)), Some(133));
}

#[test]
fn capacity_is_clamped_to_ten() {
    assert_eq!(queue_capacity(2, 500, ms(100)), Some(10));
    assert_eq!(queue_capacity(1, 1, ms(1000)), Some(10));
    assert_eq!(queue_capacity(1, 0, ms(10)), Some(10));
}

#[test]
fn capacity_with_fractional_service_time() {
    // 2.5 ms per job: 2 workers drain 80 jobs in 100 ms.
    let st = ServiceTime::new(5, 2).unwrap();
    assert_eq!(queue_capacity(2, 100, st), Some(80));
    // 0.3 ms per job: floor(1 * 10 / 0.3) = 33.
    let st = ServiceTime::new(3, 10).unwrap();
    assert_eq!(queue_capacity(1, 10, st), Some(33));
}

#[test]
fn capacity_too_large_is_refused() {
    assert_eq!(queue_capacity(usize::MAX, u64::MAX, ms(1)), None);
    assert_eq!(plan(usize::MAX, u64::MAX, ms(1)), None);
    assert_eq!(queue_capacity(2, u64::MAX, ServiceTime::new(1, u64::MAX).unwrap()), None);
}

#[test]
fn plan_of_eight_cores() {
    assert_eq!(plan(8, 500, ms(100)), Some(CapacityPlan { workers: 7, capacity: 35 }));
}

#[test]
fn service_time_must_be_positive() {
    assert!(ServiceTime::new(0, 1).is_none());
    assert!(ServiceTime::new(1, 0).is_none());
    assert!(ServiceTime::from_millis(0).is_none());
    assert_eq!(ServiceTime::new(3, 4), Some(ServiceTime { numer: 3, denom: 4 }));
}
