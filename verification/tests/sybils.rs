use da_spammer::account::{account_id, derive_accounts};
use da_spammer::blob::{draft_blob, precompute_blob, CommitOutcome};
use da_spammer::nonce::NonceCounter;
use da_spammer::retry::{Event, RetryPolicy, Submission};
use da_spammer::sybil::{
    account_result, amount_units, assign, funding_batch, funding_batches, next_nonce_hint,
    precompute_failed, randomness_is_stale, settle_nonce, PrecomputeFailure,
};

#[test]
fn amounts_are_in_whole_avail() {
    assert_eq!(amount_units(0), 0);
    assert_eq!(amount_units(10), 10_000_000_000_000_000_000);
    assert_eq!(amount_units(10), 10 * avail_rust_client::ONE_AVAIL);
    assert_eq!(amount_units(u128::MAX), u128::MAX);
}

#[test]
fn every_account_is_funded() {
    let accounts = derive_accounts(7).unwrap();
    let batches = funding_batches(&accounts, 3, 5, 100);
    let sizes: Vec<usize> = batches.iter().map(|b| b.transfers.len()).collect();
    assert_eq!(sizes, [3, 3, 1]);
    let nonces: Vec<u32> = batches.iter().map(|b| b.nonce).collect();
    assert_eq!(nonces, [100, 101, 102]);
    let funded: Vec<[u8; 32]> =
        batches.iter().flat_map(|b| b.transfers.iter().map(|t| t.dest)).collect();
    let expected: Vec<[u8; 32]> = accounts.iter().map(account_id).collect();
    assert_eq!(funded, expected);
    assert!(batches.iter().all(|b| b.transfers.iter().all(|t| t.amount == 5)));
}

#[test]
fn funding_batches_fit_their_size() {
    let accounts = derive_accounts(4).unwrap();
    assert_eq!(funding_batches(&accounts, 2, 1, 0).len(), 2);
    assert_eq!(funding_batches(&accounts, 4, 1, 0).len(), 1);
    assert_eq!(funding_batches(&accounts, usize::MAX, 1, 0).len(), 1);
    assert_eq!(funding_batches(&Vec::new(), 2, 1, u32::MAX).len(), 0);
    let last = funding_batch(&accounts, 3, 2, 9, 4);
    assert_eq!(last.nonce, 4);
    assert_eq!(last.transfers.len(), 1);
    assert_eq!(last.transfers[0].dest, account_id(&accounts[3]));
}

#[test]
fn accounts_take_turns_submitting() {
    let turns: Vec<usize> = (0..7).map(|i| assign(i, 3, None).account_idx).collect();
    assert_eq!(turns, [0, 1, 2, 0, 1, 2, 0]);
    let a = assign(30, 28, None);
    assert_eq!((a.account_idx, a.fill, a.app_id), (2, b'c', 0));
    let b = assign(31, 28, Some('q'));
    assert_eq!((b.account_idx, b.fill, b.app_id), (3, b'q', 1));
}

#[test]
fn randomness_lasts_half_a_minute() {
    assert!(!randomness_is_stale(0));
    assert!(!randomness_is_stale(29_999_999_999));
    assert!(randomness_is_stale(30_000_000_000));
}

#[test]
fn a_success_moves_past_its_nonce() {
    assert_eq!(next_nonce_hint(4, true), 5);
    assert_eq!(next_nonce_hint(4, false), 4);
    let mut counter = NonceCounter::new(3);
    settle_nonce(&mut counter, 2, true);
    assert_eq!(counter.next, 3);
    settle_nonce(&mut counter, 8, true);
    assert_eq!(counter.next, 9);
    settle_nonce(&mut counter, 9, false);
    assert_eq!(counter.next, 9);
    settle_nonce(&mut counter, 11, false);
    assert_eq!(counter.next, 11);
}

#[test]
fn unprepared_blobs_leave_a_result() {
    let r = precompute_failed(9, 2, 5, 1024, PrecomputeFailure::Failed("encode error: x".into()));
    assert_eq!(r.account_idx, 2);
    assert_eq!(r.result.index, 9);
    assert_eq!(r.result.nonce, 5);
    assert_eq!(r.result.blob_len, 1024);
    assert_eq!(r.result.attempts, 0);
    assert_eq!(r.result.elapsed_ns, 0);
    assert_eq!(r.result.err, Some("precompute error: encode error: x".to_string()));
    let r = precompute_failed(9, 2, 5, 1024, PrecomputeFailure::Lost("cancelled".into()));
    assert_eq!(r.result.err, Some("precompute join error: cancelled".to_string()));
}

#[test]
fn account_results_name_their_account() {
    let outcome = CommitOutcome::Computed { commitment: vec![], seed: [0; 32], claim: vec![0; 16] };
    let prepared = precompute_blob(draft_blob(12, b'a', 32), outcome).unwrap();
    let (mut s, _) = Submission::start(RetryPolicy { max_retries: 0, base_ms: 1 }, 9);
    s.step(Event::Signed);
    s.step(Event::Accepted);
    let r = account_result(4, &prepared, &s, 88, None);
    assert_eq!(r.account_idx, 4);
    assert_eq!(r.result.index, 12);
    assert_eq!(r.result.nonce, 9);
    assert_eq!(r.result.blob_len, 32);
    assert_eq!(r.result.attempts, 1);
    assert_eq!(r.result.elapsed_ns, 88);
    assert_eq!(r.result.err, None);
}
