use da_spammer::blob::{draft_blob, precompute_blob, CommitOutcome, PreparedBlob};
use da_spammer::nonce::NonceCounter;
use da_spammer::pacing::Pacer;
use da_spammer::retry::{Event, RetryPolicy, Submission};
use da_spammer::spammer::{submit_result, Spammer};
use da_spammer::stats::{BatchStats, SubmitResult};

fn result(attempts: u32, blob_len: usize, elapsed_ns: u128, err: Option<&str>) -> SubmitResult {
    SubmitResult {
        index: 0,
        nonce: 0,
        blob_len,
        attempts,
        elapsed_ns,
        err: err.map(|e| e.to_string()),
    }
}

#[test]
fn nonces_are_taken_in_order() {
    let mut counter = NonceCounter::new(5);
    assert_eq!(counter.reserve(), 5);
    assert_eq!(counter.reserve(), 6);
    counter.raise_to(3);
    assert_eq!(counter.reserve(), 7);
    counter.raise_to(20);
    assert_eq!(counter.reserve(), 20);
    assert_eq!(counter.next, 21);
}

#[test]
fn the_last_nonce_is_not_passed() {
    let mut counter = NonceCounter::new(u32::MAX);
    assert_eq!(counter.reserve(), u32::MAX);
    assert_eq!(counter.reserve(), u32::MAX);
}

#[test]
fn dispatches_keep_their_distance() {
    let mut pacer = Pacer::new(100);
    assert_eq!(pacer.wait(100), None);
    pacer.dispatched(100, 10);
    assert_eq!(pacer.wait(104), Some(6));
    pacer.dispatched(110, 10);
    assert_eq!(pacer.next_at, 120);
    assert_eq!(pacer.wait(500), None);
    pacer.dispatched(500, 10);
    assert_eq!(pacer.next_at, 510);
    pacer.dispatched(505, 10);
    assert_eq!(pacer.next_at, 520);
}

#[test]
fn results_are_counted() {
    let mut stats = BatchStats::new();
    stats.record(&result(1, 10, 2_999_999, None));
    stats.record(&result(3, 20, 5_000_000, None));
    stats.record(&result(4, 40, 9_000_000, Some("timeout")));
    stats.record(&result(0, 80, 0, Some("precompute error: x")));
    stats.record_failure();
    assert_eq!(
        stats,
        BatchStats { ok: 2, failed: 3, retries: 5, bytes_ok: 30, submit_ms_ok: 7 }
    );
}

#[test]
fn counters_start_over_at_the_end_of_their_range() {
    let mut stats = BatchStats {
        ok: usize::MAX,
        failed: usize::MAX,
        retries: usize::MAX,
        bytes_ok: u64::MAX,
        submit_ms_ok: u64::MAX,
    };
    stats.record(&result(3, 5, 4_000_000, None));
    stats.record_failure();
    assert_eq!(
        stats,
        BatchStats { ok: 0, failed: 0, retries: 1, bytes_ok: 4, submit_ms_ok: 3 }
    );
}

#[test]
fn long_times_keep_their_low_bits() {
    let mut stats = BatchStats::new();
    let ms = (1u128 << 64) + 9;
    stats.record(&result(1, 0, ms * 1_000_000, None));
    assert_eq!(stats.submit_ms_ok, 9);
}

#[test]
fn batches_start_their_counts_over() {
    let mut run = Spammer::new(40);
    assert!(run.begin_batch([1; 32]));
    let first = run.dispatch(3);
    assert_eq!((first.nonce, first.app_id), (40, 3));
    let second = run.dispatch(5);
    assert_eq!((second.nonce, second.app_id), (41, 0));
    run.record(&result(2, 8, 1_000_000, None));
    run.record(&result(1, 8, 1_000_000, Some("timeout")));
    run.record_failure();
    assert_eq!(run.dispatched, 2);
    assert_eq!(run.stats.ok + run.stats.failed, run.dispatched + 1);
    assert!(run.needs_chain_nonce());
    run.adopt_chain_nonce(10);
    assert_eq!(run.nonces.next, 42);
    run.adopt_chain_nonce(50);
    assert_eq!(run.nonces.next, 50);

    assert!(!run.begin_batch([1; 32]));
    assert_eq!(run.dispatched, 0);
    assert_eq!(run.stats, BatchStats::new());
    assert!(!run.needs_chain_nonce());
    assert_eq!(run.dispatch(0).nonce, 50);
    let mut other = [1; 32];
    other[31] = 2;
    assert!(run.begin_batch(other));
    assert_eq!(run.epoch, Some(other));
}

fn prepared() -> PreparedBlob {
    let outcome = CommitOutcome::Computed { commitment: vec![], seed: [0; 32], claim: vec![0; 16] };
    precompute_blob(draft_blob(6, b'a', 32), outcome).unwrap()
}

#[test]
fn submissions_report_how_they_ended() {
    let (mut s, _) = Submission::start(RetryPolicy { max_retries: 0, base_ms: 1 }, 9);
    s.step(Event::Signed);
    s.step(Event::Rejected("timeout".into()));
    let r = submit_result(&prepared(), &s, 77, Some("timeout".into()));
    assert_eq!(r.index, 6);
    assert_eq!(r.nonce, 9);
    assert_eq!(r.blob_len, 32);
    assert_eq!(r.attempts, 1);
    assert_eq!(r.elapsed_ns, 77);
    assert_eq!(r.err, Some("timeout".to_string()));
}
