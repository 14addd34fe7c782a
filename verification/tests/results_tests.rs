use rewrk::results::{
    aggregate, max_sample, min_sample, percentile, sort_samples, sum_samples, WorkerResult,
};

fn worker(totals: Vec<u64>, times: Vec<u64>, bufs: Vec<u64>, success: u64, error: u64) -> WorkerResult {
    WorkerResult {
        total_times: totals,
        request_times: times,
        buffer_sizes: bufs,
        success,
        error,
    }
}

#[test]
fn default_is_empty() {
    let r = WorkerResult::default();
    assert_eq!(r.total_times, Vec::<u64>::new());
    assert_eq!(r.request_times, Vec::<u64>::new());
    assert_eq!(r.buffer_sizes, Vec::<u64>::new());
    assert_eq!(r.success, 0);
    assert_eq!(r.error, 0);
}

#[test]
fn merge_concatenates_and_sums() {
    let mut a = worker(vec![100], vec![10, 20], vec![512], 2, 1);
    let b = worker(vec![90], vec![30], vec![256], 1, 4);
    a.merge(b);
    assert_eq!(a.total_times, vec![100, 90]);
    assert_eq!(a.request_times, vec![10, 20, 30]);
    assert_eq!(a.buffer_sizes, vec![512, 256]);
    assert_eq!(a.success, 3);
    assert_eq!(a.error, 5);
}

#[test]
fn merge_order_does_not_change_statistics() {
    let a = worker(vec![100], vec![10, 30], vec![512], 2, 1);
    let b = worker(vec![90], vec![20], vec![256], 1, 4);
    let a2 = worker(vec![100], vec![10, 30], vec![512], 2, 1);
    let b2 = worker(vec![90], vec![20], vec![256], 1, 4);

    let mut ab = a;
    ab.merge(b);
    let mut ba = b2;
    ba.merge(a2);

    assert_eq!(ab.success, ba.success);
    assert_eq!(ab.error, ba.error);
    let mut ab_times = ab.request_times;
    let mut ba_times = ba.request_times;
    sort_samples(&mut ab_times);
    sort_samples(&mut ba_times);
    assert_eq!(ab_times, ba_times);
    let mut ab_totals = ab.total_times;
    let mut ba_totals = ba.total_times;
    sort_samples(&mut ab_totals);
    sort_samples(&mut ba_totals);
    assert_eq!(ab_totals, ba_totals);
}

#[test]
fn aggregate_of_one_is_identity() {
    let r = aggregate(vec![worker(vec![100], vec![10, 20], vec![512], 2, 1)]);
    assert_eq!(r.total_times, vec![100]);
    assert_eq!(r.request_times, vec![10, 20]);
    assert_eq!(r.buffer_sizes, vec![512]);
    assert_eq!(r.success, 2);
    assert_eq!(r.error, 1);
}

#[test]
fn aggregate_of_four_workers() {
    let rs = vec![
        worker(vec![100], vec![1], vec![10], 1, 0),
        worker(vec![110], vec![2], vec![20], 1, 1),
        worker(vec![120], vec![3], vec![30], 1, 0),
        worker(vec![130], vec![4], vec![40], 1, 2),
    ];
    let merged = aggregate(rs);
    assert_eq!(merged.success, 4);
    assert_eq!(merged.error, 3);
    assert_eq!(merged.request_times, vec![1, 2, 3, 4]);
    assert_eq!(merged.total_times, vec![100, 110, 120, 130]);
    assert_eq!(merged.buffer_sizes, vec![10, 20, 30, 40]);
}

#[test]
fn aggregate_of_none_is_empty() {
    let merged = aggregate(Vec::new());
    assert_eq!(merged.success, 0);
    assert_eq!(merged.error, 0);
    assert!(merged.request_times.is_empty());
}

#[test]
fn sort_orders_and_keeps_values() {
    let mut v = vec![50, 10, 40, 10, 30];
    sort_samples(&mut v);
    assert_eq!(v, vec![10, 10, 30, 40, 50]);
    let mut e: Vec<u64> = Vec::new();
    sort_samples(&mut e);
    assert_eq!(e, Vec::<u64>::new());
}

#[test]
fn nearest_rank_percentiles() {
    let v: Vec<u64> = vec![10, 20, 30, 40, 50, 60, 70, 80, 90, 100];
    assert_eq!(percentile(&v, 50), 50);
    assert_eq!(percentile(&v, 75), 80);
    assert_eq!(percentile(&v, 90), 90);
    assert_eq!(percentile(&v, 95), 100);
    assert_eq!(percentile(&v, 99), 100);
    assert_eq!(percentile(&v, 100), 100);
    assert_eq!(percentile(&v, 1), 10);
}

#[test]
fn percentile_of_one_sample() {
    let v: Vec<u64> = vec![42];
    for p in 1..=100u64 {
        assert_eq!(percentile(&v, p), 42);
    }
}

#[test]
fn sum_min_max() {
    let v: Vec<u64> = vec![5, 3, 9, 3];
    assert_eq!(sum_samples(&v), 20);
    assert_eq!(min_sample(&v), 3);
    assert_eq!(max_sample(&v), 9);
    let big: Vec<u64> = vec![u64::MAX, u64::MAX];
    assert_eq!(sum_samples(&big), 2 * (u64::MAX as u128));
}
