use std::sync::atomic::{AtomicUsize, Ordering};
use std::sync::Arc;

use stilsoft::call_timing::CallTiming;
use stilsoft::session::{
    classify_fault, next_broken_pipes, response_delay_ms, session_summary, shutdown_report, AdmissionController,
    BrokenPipeCounter, SessionEnd, TransportFault, ADMISSION_CAPACITY, MAX_DELAY_MS, MIN_DELAY_MS,
};

#[test]
fn next_broken_pipes_counts_only_broken_pipes() {
    assert_eq!(next_broken_pipes(0, SessionEnd::BrokenPipe), 1);
    assert_eq!(next_broken_pipes(4, SessionEnd::Clean), 4);
    assert_eq!(next_broken_pipes(4, SessionEnd::OtherError), 4);
    assert_eq!(next_broken_pipes(u64::MAX, SessionEnd::BrokenPipe), u64::MAX);
}

#[test]
fn broken_pipe_counter_scenario() {
    let counter = BrokenPipeCounter::new();
    let seen_by_report = counter.clone();
    assert_eq!(counter.note_end(SessionEnd::Clean), (0, 0));
    assert_eq!(counter.note_end(SessionEnd::BrokenPipe), (0, 1));
    assert_eq!(counter.note_end(SessionEnd::OtherError), (1, 1));
    assert_eq!(seen_by_report.get(), 1);
    assert_eq!(counter.note_end(SessionEnd::BrokenPipe), (1, 2));
    assert_eq!(seen_by_report.get(), 2);
}

#[test]
fn session_summary_line() {
    let mut requests = CallTiming::new();
    assert_eq!(session_summary(2_000_000_000, &requests), "session: 2s, requests: number=0");
    requests.add(250_000_000);
    assert_eq!(
        session_summary(61_000_000_000, &requests),
        "session: 1m 1s, requests: number=1, min=250ms, max=250ms, avg=250ms"
    );
}

#[test]
fn shutdown_report_line() {
    let mut connections = CallTiming::new();
    assert_eq!(shutdown_report(&connections, 3), "connections: number=0, broken pipes: 3");
    connections.add(1_000);
    connections.add(3_000);
    assert_eq!(
        shutdown_report(&connections, 0),
        "connections: number=2, min=1us, max=3us, avg=2us, broken pipes: 0"
    );
}

#[test]
fn response_delay_stays_in_range() {
    for _ in 0..200 {
        let delay = response_delay_ms();
        assert!((MIN_DELAY_MS..=MAX_DELAY_MS).contains(&delay));
    }
}

#[test]
fn admission_pool_has_its_capacity() {
    let admission = AdmissionController::new(ADMISSION_CAPACITY);
    assert_eq!(admission.capacity(), 5);
    assert_eq!(admission.pool().available_permits(), 5);
}

#[test]
fn admission_never_exceeds_capacity() {
    let runtime = tokio::runtime::Builder::new_multi_thread()
        .worker_threads(4)
        .enable_all()
        .build()
        .unwrap();
    let admission = AdmissionController::new(ADMISSION_CAPACITY);
    let outstanding = Arc::new(AtomicUsize::new(0));
    let highest = Arc::new(AtomicUsize::new(0));
    let served = Arc::new(AtomicUsize::new(0));
    runtime.block_on(async {
        let mut handles = Vec::new();
        for _ in 0..64 {
            let pool = admission.pool();
            let outstanding = outstanding.clone();
            let highest = highest.clone();
            let served = served.clone();
            handles.push(tokio::spawn(async move {
                let permit = pool.acquire_owned().await.unwrap();
                let now = outstanding.fetch_add(1, Ordering::SeqCst) + 1;
                highest.fetch_max(now, Ordering::SeqCst);
                tokio::task::yield_now().await;
                outstanding.fetch_sub(1, Ordering::SeqCst);
                served.fetch_add(1, Ordering::SeqCst);
                drop(permit);
            }));
        }
        for handle in handles {
            handle.await.unwrap();
        }
    });
    assert!(highest.load(Ordering::SeqCst) <= ADMISSION_CAPACITY);
    assert_eq!(served.load(Ordering::SeqCst), 64);
    assert_eq!(admission.pool().available_permits(), ADMISSION_CAPACITY);
}

#[test]
fn response_delay_varies() {
    let first = response_delay_ms();
    let varied = (0..200).any(|_| response_delay_ms() != first);
    assert!(varied);
}

#[test]
fn faults_are_classified() {
    assert_eq!(classify_fault(TransportFault::BrokenPipe), SessionEnd::BrokenPipe);
    assert_eq!(classify_fault(TransportFault::ConnectionReset), SessionEnd::BrokenPipe);
    assert_eq!(classify_fault(TransportFault::OtherIo), SessionEnd::OtherError);
    assert_eq!(classify_fault(TransportFault::NotIo), SessionEnd::OtherError);
}

#[test]
fn broken_pipe_on_one_connection_leaves_others_alone() {
    let counter = BrokenPipeCounter::new();
    let before = counter.get();
    let (seen, after) = counter.note_end(classify_fault(TransportFault::BrokenPipe));
    assert_eq!(seen, before);
    assert_eq!(after, before + 1);
    assert_eq!(counter.note_end(SessionEnd::Clean), (1, 1));
    assert_eq!(counter.get(), 1);
}
