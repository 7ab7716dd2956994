use da_spammer::blob::{
    app_id_for, claim_bytes, draft_blob, fill_blob, precompute_blob, BlobDraft, CommitOutcome,
};

#[test]
fn long_blobs_start_with_the_index() {
    assert_eq!(fill_blob(b'a', 12, 258), [2, 1, 0, 0, 0, 0, 0, 0, 97, 97, 97, 97]);
    assert_eq!(fill_blob(0, 8, u64::MAX), [255; 8]);
    let blob = fill_blob(b'z', 1024 * 1024, 0x0102_0304_0506_0708);
    assert_eq!(blob.len(), 1024 * 1024);
    assert_eq!(blob[..8], 0x0102_0304_0506_0708u64.to_le_bytes());
    assert!(blob[8..].iter().all(|b| *b == b'z'));
}

#[test]
fn short_blobs_mark_the_first_byte() {
    assert_eq!(fill_blob(7, 2, 258), [10, 7]);
    assert_eq!(fill_blob(250, 1, 10), [4]);
    assert_eq!(fill_blob(1, 7, 255), [1; 7]);
}

#[test]
fn blobs_with_different_marks_differ() {
    assert_ne!(fill_blob(1, 8, 5), fill_blob(1, 8, 6));
    assert_ne!(fill_blob(1, 9, 5), fill_blob(2, 9, 260));
}

#[test]
fn drafts_are_hashed() {
    let draft = draft_blob(258, b'a', 12);
    assert_eq!(draft.index, 258);
    assert_eq!(draft.blob, fill_blob(b'a', 12, 258));
    let expected: [u8; 32] = [
        125, 6, 255, 10, 78, 140, 90, 144, 99, 221, 223, 206, 10, 205, 133, 212, 191, 63, 255, 100,
        255, 58, 45, 236, 181, 49, 156, 32, 190, 115, 148, 145,
    ];
    assert_eq!(draft.hash, expected);
}

#[test]
fn complete_blobs_keep_their_parts() {
    let outcome = CommitOutcome::Computed {
        commitment: vec![1, 2, 3],
        seed: [9; 32],
        claim: (0..16).collect(),
    };
    let prepared = precompute_blob(draft_blob(6, b'b', 16), outcome).unwrap();
    assert_eq!(prepared.index, 6);
    assert_eq!(prepared.blob, fill_blob(b'b', 16, 6));
    assert_eq!(prepared.hash, draft_blob(6, b'b', 16).hash);
    assert_eq!(prepared.commitment, [1, 2, 3]);
    assert_eq!(prepared.seed, [9; 32]);
    assert_eq!(prepared.claim, [0, 1, 2, 3, 4, 5, 6, 7, 8, 9, 10, 11, 12, 13, 14, 15]);

    let metadata = prepared.metadata(app_id_for(prepared.index));
    assert_eq!(metadata.app_id, 1);
    assert_eq!(metadata.hash, prepared.hash);
    assert_eq!(metadata.size, 16);
    assert_eq!(metadata.commitment, [1, 2, 3]);
    assert_eq!(metadata.seed, Some([9; 32]));
    assert_eq!(metadata.claim, Some(prepared.claim));
}

fn draft() -> BlobDraft {
    draft_blob(0, 0, 8)
}

#[test]
fn commitment_failures_say_where_they_happened() {
    let message = |outcome| precompute_blob(draft(), outcome).unwrap_err();
    assert_eq!(message(CommitOutcome::EncodeFailed("x".into())), "encode error: x");
    assert_eq!(message(CommitOutcome::ContextFailed("x".into())), "init fri context error: x");
    assert_eq!(message(CommitOutcome::CommitFailed("x".into())), "commit error: x");
    assert_eq!(message(CommitOutcome::ClaimFailed("x".into())), "evaluation claim error: x");
}

#[test]
fn claims_have_sixteen_bytes() {
    for len in [0usize, 15, 17] {
        let outcome = CommitOutcome::Computed {
            commitment: vec![],
            seed: [0; 32],
            claim: vec![0; len],
        };
        assert_eq!(precompute_blob(draft(), outcome).unwrap_err(), "invalid claim byte length");
        assert_eq!(claim_bytes(&vec![0; len]), None);
    }
    assert_eq!(claim_bytes(&vec![3; 16]), Some([3; 16]));
}

#[test]
fn application_ids_go_round() {
    let ids: Vec<u32> = (0..7).map(app_id_for).collect();
    assert_eq!(ids, [0, 1, 2, 3, 4, 0, 1]);
}
