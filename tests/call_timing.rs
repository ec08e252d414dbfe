use std::sync::Arc;

use stilsoft::call_timing::{CallTimedService, CallTiming, SharedTiming};
use stilsoft::text::MAX_SPAN_NANOS;

const SEC: u128 = 1_000_000_000;
const MS: u128 = 1_000_000;

#[test]
fn fresh_timing_renders_number_zero() {
    let timing = CallTiming::new();
    assert_eq!(timing.render(), "number=0");
    assert_eq!(timing.count(), 0);
    assert_eq!(timing.min_nanos(), None);
    assert_eq!(CallTiming::default().render(), "number=0");
}

#[test]
fn add_tracks_count_min_max_sum() {
    let mut timing = CallTiming::new();
    for d in [300 * MS, 100 * MS, 500 * MS, 200 * MS] {
        timing.add(d);
    }
    assert_eq!(timing.count(), 4);
    assert_eq!(timing.min_nanos(), Some(100 * MS));
    assert_eq!(timing.max_nanos(), Some(500 * MS));
    assert_eq!(timing.sum_nanos(), Some(1100 * MS));
    assert_eq!(timing.average_nanos(), Some(275 * MS));
}

#[test]
fn add_order_does_not_matter() {
    let samples = [7u128, 3, 11, 5, 3];
    let mut forward = CallTiming::new();
    let mut backward = CallTiming::new();
    for d in samples {
        forward.add(d);
    }
    for d in samples.iter().rev() {
        backward.add(*d);
    }
    assert_eq!(forward.render(), backward.render());
    assert_eq!(forward.sum_nanos(), Some(29));
    assert_eq!(forward.min_nanos(), Some(3));
    assert_eq!(forward.max_nanos(), Some(11));
}

#[test]
fn render_uses_humantime_notation() {
    let mut timing = CallTiming::new();
    timing.add(SEC);
    timing.add(2 * SEC);
    assert_eq!(timing.render(), "number=2, min=1s, max=2s, avg=1s 500ms");
}

#[test]
fn render_truncates_the_average() {
    let mut timing = CallTiming::new();
    timing.add(1);
    timing.add(2);
    assert_eq!(timing.render(), "number=2, min=1ns, max=2ns, avg=1ns");
}

#[test]
fn render_single_zero_sample() {
    let mut timing = CallTiming::new();
    timing.add(0);
    assert_eq!(timing.render(), "number=1, min=0s, max=0s, avg=0s");
}

#[test]
fn fits_sample_at_the_largest_duration() {
    let mut timing = CallTiming::new();
    assert!(timing.fits_sample(MAX_SPAN_NANOS));
    assert!(!timing.fits_sample(MAX_SPAN_NANOS + 1));
    timing.add(MAX_SPAN_NANOS);
    assert!(timing.fits_sample(0));
    assert!(!timing.fits_sample(1));
}

#[test]
fn shared_timing_record_and_refuse() {
    let shared = SharedTiming::new();
    let (fitted, before, after) = shared.record(5 * MS);
    assert!(fitted);
    assert_eq!(before.count(), 0);
    assert_eq!(after.count(), 1);
    assert_eq!(after.sum_nanos(), Some(5 * MS));
    let (fitted, before, after) = shared.record(MAX_SPAN_NANOS);
    assert!(!fitted);
    assert_eq!(before.render(), after.render());
    assert_eq!(after.count(), 1);
    assert!(!shared.record(MAX_SPAN_NANOS + 1).0);
    let clone = shared.clone();
    let (fitted, before, after) = clone.record(15 * MS);
    assert!(fitted);
    assert_eq!(before.count(), 1);
    assert_eq!(after.max_nanos(), Some(15 * MS));
    let snap = shared.snapshot();
    assert_eq!(snap.count(), 2);
    assert_eq!(snap.sum_nanos(), Some(20 * MS));
    assert_eq!(shared.render(), "number=2, min=5ms, max=15ms, avg=10ms");
}

#[test]
fn shared_timing_keeps_every_concurrent_sample() {
    let runtime = tokio::runtime::Builder::new_multi_thread()
        .worker_threads(4)
        .build()
        .unwrap();
    let shared = SharedTiming::new();
    runtime.block_on(async {
        let mut handles = Vec::new();
        for task in 0..8u128 {
            let timing = shared.clone();
            handles.push(tokio::spawn(async move {
                for k in 1..=250u128 {
                    assert!(timing.record(task * 1000 + k).0);
                    tokio::task::yield_now().await;
                }
            }));
        }
        for handle in handles {
            handle.await.unwrap();
        }
    });
    let snap = shared.snapshot();
    assert_eq!(snap.count(), 2000);
    assert_eq!(snap.min_nanos(), Some(1));
    assert_eq!(snap.max_nanos(), Some(7250));
    let expected: u128 = (0..8u128).map(|t| (1..=250u128).map(|k| t * 1000 + k).sum::<u128>()).sum();
    assert_eq!(snap.sum_nanos(), Some(expected));
}

#[test]
fn call_timed_service_wraps_inner() {
    let service = CallTimedService::new(Arc::new(41u32));
    assert_eq!(*service.inner, 41);
    assert_eq!(service.call_timing.render(), "number=0");
    let (fitted, before, after) = service.record_call(3 * SEC);
    assert!(fitted);
    assert_eq!(before.count(), 0);
    assert_eq!(after.count(), 1);
    let observer = service.call_timing.clone();
    assert_eq!(observer.render(), "number=1, min=3s, max=3s, avg=3s");
}
