//! Blobs: their contents, their hash, and what is submitted along with them.

use vstd::prelude::*;

use crate::text::prefixed;

verus! {

/// The Keccak-256 hash of `data`, as `sp_crypto_hashing::keccak_256` returns it.
pub uninterp spec fn keccak_256_of(data: Seq<u8>) -> Seq<u8>;

/// `sp_crypto_hashing::keccak_256`: the hash is a function of the data.
pub assume_specification[ sp_crypto_hashing::keccak_256 ](data: &[u8]) -> (r: [u8; 32])
    ensures
        r@ == keccak_256_of(data@),
;

/// The `width` lowest bytes of `n`, the lowest first.
pub open spec fn le_bytes(n: nat, width: nat) -> Seq<u8>
    decreases width,
{
    if width == 0 {
        seq![]
    } else {
        seq![(n % 256) as u8] + le_bytes(n / 256, (width - 1) as nat)
    }
}

/// The contents of a blob of `len` bytes: `fill` throughout, but for a mark that tells blobs
/// apart. The mark is `unique` in the first eight bytes, or, where there is no room for it, the
/// remainder of `unique` by 255 added to the first byte.
pub open spec fn payload(fill: u8, len: nat, unique: u64) -> Seq<u8> {
    if len >= 8 {
        le_bytes(unique as nat, 8) + Seq::new((len - 8) as nat, |i: int| fill)
    } else {
        Seq::new(len, |i: int| fill).update(0, ((fill + unique % 255) % 256) as u8)
    }
}

/// `le_bytes` has as many bytes as were asked for.
pub proof fn le_bytes_len(n: nat, width: nat)
    ensures
        le_bytes(n, width).len() == width,
    decreases width,
{
    if width > 0 {
        le_bytes_len(n / 256, (width - 1) as nat);
    }
}

/// The byte of `n` at position `k`.
proof fn le_bytes_at(n: nat, rest: nat, width: nat, k: nat)
    requires
        k < width,
        le_bytes(n, width).skip(k as int) == le_bytes(rest, (width - k) as nat),
    ensures
        le_bytes(n, width)[k as int] == rest % 256,
        le_bytes(n, width).skip(k as int + 1) == le_bytes(rest / 256, (width - k - 1) as nat),
{
    le_bytes_len(n, width);
    let tail = le_bytes(n, width).skip(k as int);
    assert(tail[0] == (rest % 256) as u8);
    assert(le_bytes(n, width).skip(k as int + 1) =~= tail.skip(1));
    assert(tail.skip(1) =~= le_bytes(rest / 256, (width - k - 1) as nat));
}

/// Fills a blob of `len_bytes` bytes and marks it with `unique`.
pub fn fill_blob(fill: u8, len_bytes: usize, unique: u64) -> (blob: Vec<u8>)
    requires
        len_bytes > 0,
    ensures
        blob@ == payload(fill, len_bytes as nat, unique),
{
    let mut blob: Vec<u8> = vec![fill; len_bytes];
    if len_bytes >= 8 {
        let ghost mark = le_bytes(unique as nat, 8);
        let mut rest: u64 = unique;
        let mut k: usize = 0;
        proof {
            le_bytes_len(unique as nat, 8);
            assert(mark.skip(0) =~= mark);
        }
        while k < 8
            invariant
                k <= 8 <= len_bytes,
                blob@.len() == len_bytes,
                mark == le_bytes(unique as nat, 8),
                mark.len() == 8,
                mark.skip(k as int) == le_bytes(rest as nat, (8 - k) as nat),
                forall|i: int| 0 <= i < k ==> #[trigger] blob@[i] == mark[i],
                forall|i: int| k <= i < len_bytes ==> #[trigger] blob@[i] == fill,
            decreases 8 - k,
        {
            proof {
                le_bytes_at(unique as nat, rest as nat, 8, k as nat);
            }
            blob[k] = (rest % 256) as u8;
            rest = rest / 256;
            k += 1;
        }
        assert(blob@ =~= payload(fill, len_bytes as nat, unique));
    } else {
        blob[0] = fill.wrapping_add((unique % 255) as u8);
        assert(blob@ =~= payload(fill, len_bytes as nat, unique));
    }
    blob
}

/// A blob that is filled and hashed, ready for its commitment.
pub struct BlobDraft {
    pub index: usize,
    pub blob: Vec<u8>,
    pub hash: [u8; 32],
}

/// Fills and hashes the blob with index `index`, which also marks it.
pub fn draft_blob(index: usize, fill: u8, len_bytes: usize) -> (draft: BlobDraft)
    requires
        len_bytes > 0,
    ensures
        draft.index == index,
        draft.blob@ == payload(fill, len_bytes as nat, index as u64),
        draft.hash@ == keccak_256_of(draft.blob@),
{
    let blob = fill_blob(fill, len_bytes, index as u64);
    let hash = sp_crypto_hashing::keccak_256(blob.as_slice());
    BlobDraft { index, blob, hash }
}

/// What became of the polynomial commitment to a blob and of the evaluation claim.
pub enum CommitOutcome {
    /// The blob could not be packed into a multilinear extension.
    EncodeFailed(String),
    /// The commitment scheme could not be set up.
    ContextFailed(String),
    /// The commitment could not be computed.
    CommitFailed(String),
    /// The evaluation claim could not be computed.
    ClaimFailed(String),
    /// The commitment, the seed of the evaluation point, and the bytes of the claim.
    Computed { commitment: Vec<u8>, seed: [u8; 32], claim: Vec<u8> },
}

/// A blob with all that its submission needs.
#[derive(Debug)]
pub struct PreparedBlob {
    pub index: usize,
    pub blob: Vec<u8>,
    pub hash: [u8; 32],
    pub commitment: Vec<u8>,
    pub seed: [u8; 32],
    pub claim: [u8; 16],
}

/// The message for a failed commitment; a claim of the wrong size counts as one.
pub open spec fn commit_error(outcome: CommitOutcome) -> Option<Seq<char>> {
    match outcome {
        CommitOutcome::EncodeFailed(detail) => Some("encode error: "@ + detail@),
        CommitOutcome::ContextFailed(detail) => Some("init fri context error: "@ + detail@),
        CommitOutcome::CommitFailed(detail) => Some("commit error: "@ + detail@),
        CommitOutcome::ClaimFailed(detail) => Some("evaluation claim error: "@ + detail@),
        CommitOutcome::Computed { claim, .. } => if claim@.len() == 16 {
            None
        } else {
            Some("invalid claim byte length"@)
        },
    }
}

/// The claim bytes as an array; `None` if there are not sixteen of them.
pub fn claim_bytes(claim: &Vec<u8>) -> (r: Option<[u8; 16]>)
    ensures
        match r {
            Some(bytes) => claim@.len() == 16 && bytes@ == claim@,
            None => claim@.len() != 16,
        },
{
    if claim.len() != 16 {
        return None;
    }
    let mut bytes: [u8; 16] = [0u8; 16];
    let mut i: usize = 0;
    while i < 16
        invariant
            i <= 16,
            claim@.len() == 16,
            bytes@.len() == 16,
            forall|j: int| 0 <= j < i ==> #[trigger] bytes@[j] == claim@[j],
        decreases 16 - i,
    {
        bytes[i] = claim[i];
        i += 1;
    }
    assert(bytes@ =~= claim@);
    Some(bytes)
}

/// Completes a draft with the outcome of its commitment.
pub fn precompute_blob(draft: BlobDraft, outcome: CommitOutcome) -> (r: Result<
    PreparedBlob,
    String,
>)
    ensures
        match r {
            Ok(prepared) => {
                &&& commit_error(outcome) is None
                &&& prepared.index == draft.index
                &&& prepared.blob == draft.blob
                &&& prepared.hash == draft.hash
                &&& prepared.commitment == outcome->Computed_commitment
                &&& prepared.seed == outcome->Computed_seed
                &&& prepared.claim@ == outcome->Computed_claim@
            },
            Err(message) => commit_error(outcome) == Some(message@),
        },
{
    match outcome {
        CommitOutcome::EncodeFailed(detail) => Err(prefixed("encode error: ", detail.as_str())),
        CommitOutcome::ContextFailed(detail) => Err(
            prefixed("init fri context error: ", detail.as_str()),
        ),
        CommitOutcome::CommitFailed(detail) => Err(prefixed("commit error: ", detail.as_str())),
        CommitOutcome::ClaimFailed(detail) => Err(
            prefixed("evaluation claim error: ", detail.as_str()),
        ),
        CommitOutcome::Computed { commitment, seed, claim } => match claim_bytes(&claim) {
            None => Err("invalid claim byte length".to_owned()),
            Some(claim) => Ok(
                PreparedBlob {
                    index: draft.index,
                    blob: draft.blob,
                    hash: draft.hash,
                    commitment,
                    seed,
                    claim,
                },
            ),
        },
    }
}

/// What the chain is told of a blob.
#[derive(Debug)]
pub struct BlobMetadata {
    pub app_id: u32,
    pub hash: [u8; 32],
    pub size: u64,
    pub commitment: Vec<u8>,
    pub seed: Option<[u8; 32]>,
    pub claim: Option<[u8; 16]>,
}

/// The application id under which the blob with index `index` is submitted.
pub fn app_id_for(index: usize) -> (app_id: u32)
    ensures
        app_id == index % 5,
{
    (index % 5) as u32
}

impl PreparedBlob {
    /// The metadata that is signed for this blob.
    pub fn metadata(&self, app_id: u32) -> (r: BlobMetadata)
        ensures
            r.app_id == app_id,
            r.hash == self.hash,
            r.size == self.blob@.len(),
            r.commitment@ == self.commitment@,
            r.seed == Some(self.seed),
            r.claim == Some(self.claim),
    {
        let commitment = self.commitment.clone();
        assert(commitment@ =~= self.commitment@);
        BlobMetadata {
            app_id,
            hash: self.hash,
            size: self.blob.len() as u64,
            commitment,
            seed: Some(self.seed),
            claim: Some(self.claim),
        }
    }
}

/// `256` to the power of `width`.
pub open spec fn byte_range(width: nat) -> nat
    decreases width,
{
    if width == 0 {
        1
    } else {
        256 * byte_range((width - 1) as nat)
    }
}

/// Numbers that fit in `width` bytes are told apart by those bytes.
pub proof fn le_bytes_are_injective(a: nat, b: nat, width: nat)
    requires
        a < byte_range(width),
        b < byte_range(width),
        le_bytes(a, width) == le_bytes(b, width),
    ensures
        a == b,
    decreases width,
{
    if width > 0 {
        let less = (width - 1) as nat;
        let x = le_bytes(a, width);
        let y = le_bytes(b, width);
        assert(x[0] == (a % 256) as u8);
        assert(y[0] == (b % 256) as u8);
        assert(x.skip(1) =~= le_bytes(a / 256, less));
        assert(y.skip(1) =~= le_bytes(b / 256, less));
        le_bytes_are_injective(a / 256, b / 256, less);
    }
}

/// Blobs of eight bytes or more with different marks differ, whatever they are filled with.
pub proof fn payloads_are_distinct(
    fill_a: u8,
    fill_b: u8,
    len: nat,
    unique_a: u64,
    unique_b: u64,
)
    requires
        len >= 8,
        payload(fill_a, len, unique_a) == payload(fill_b, len, unique_b),
    ensures
        unique_a == unique_b,
{
    le_bytes_len(unique_a as nat, 8);
    le_bytes_len(unique_b as nat, 8);
    assert(payload(fill_a, len, unique_a).take(8) =~= le_bytes(unique_a as nat, 8));
    assert(payload(fill_b, len, unique_b).take(8) =~= le_bytes(unique_b as nat, 8));
    reveal_with_fuel(byte_range, 9);
    le_bytes_are_injective(unique_a as nat, unique_b as nat, 8);
}

/// Shorter blobs with the same filling differ where the remainders of their marks by 255 do.
pub proof fn short_payloads_are_distinct(fill: u8, len: nat, unique_a: u64, unique_b: u64)
    requires
        0 < len < 8,
        payload(fill, len, unique_a) == payload(fill, len, unique_b),
    ensures
        unique_a % 255 == unique_b % 255,
{
    assert(payload(fill, len, unique_a)[0] == ((fill + unique_a % 255) % 256) as u8);
    assert(payload(fill, len, unique_b)[0] == ((fill + unique_b % 255) % 256) as u8);
}

/// A payload has the length that was asked for.
pub proof fn payload_len(fill: u8, len: nat, unique: u64)
    requires
        len > 0,
    ensures
        payload(fill, len, unique).len() == len,
{
    le_bytes_len(unique as nat, 8);
}

/// A blob of eight bytes or more holds its filling in every byte behind the first eight, up to
/// its end, and the first eight bytes read back as the mark, the lowest byte first.
pub proof fn payloads_hold_mark_and_filling(fill: u8, len: nat, unique: u64)
    requires
        len >= 8,
    ensures
        ({
            let bytes = payload(fill, len, unique);
            &&& bytes.len() == len
            &&& forall|i: int| 8 <= i < len ==> #[trigger] bytes[i] == fill
            &&& bytes[0] + 0x100 * bytes[1] + 0x1_0000 * bytes[2] + 0x100_0000 * bytes[3]
                + 0x1_0000_0000 * bytes[4] + 0x100_0000_0000 * bytes[5] + 0x1_0000_0000_0000
                * bytes[6] + 0x100_0000_0000_0000 * bytes[7] == unique
        }),
{
    let bytes = payload(fill, len, unique);
    let mark = le_bytes(unique as nat, 8);
    le_bytes_len(unique as nat, 8);
    assert(mark.skip(0) =~= mark);
    let r1 = unique as nat / 256;
    let r2 = r1 / 256;
    let r3 = r2 / 256;
    let r4 = r3 / 256;
    let r5 = r4 / 256;
    let r6 = r5 / 256;
    let r7 = r6 / 256;
    le_bytes_at(unique as nat, unique as nat, 8, 0);
    le_bytes_at(unique as nat, r1, 8, 1);
    le_bytes_at(unique as nat, r2, 8, 2);
    le_bytes_at(unique as nat, r3, 8, 3);
    le_bytes_at(unique as nat, r4, 8, 4);
    le_bytes_at(unique as nat, r5, 8, 5);
    le_bytes_at(unique as nat, r6, 8, 6);
    le_bytes_at(unique as nat, r7, 8, 7);
    assert(bytes.take(8) =~= mark);
    assert(forall|i: int| 0 <= i < 8 ==> bytes[i] == #[trigger] mark[i]);
}

/// A shorter blob holds its filling in every byte but the first, which is further on by the
/// remainder of the mark by 255 and starts over behind the largest byte.
pub proof fn short_payloads_hold_mark_and_filling(fill: u8, len: nat, unique: u64)
    requires
        0 < len < 8,
    ensures
        ({
            let bytes = payload(fill, len, unique);
            &&& bytes.len() == len
            &&& forall|i: int| 1 <= i < len ==> #[trigger] bytes[i] == fill
            &&& {
                ||| bytes[0] == fill + unique % 255
                ||| bytes[0] == fill + unique % 255 - 256
            }
        }),
{
}

/// A filled and hashed blob carries the index it was asked for, as its mark too, and the hash of
/// the very bytes it holds.
pub proof fn drafts_are_marked_and_hashed(
    index: usize,
    fill: u8,
    len_bytes: usize,
    draft: BlobDraft,
)
    requires
        len_bytes > 0,
        call_ensures(draft_blob, (index, fill, len_bytes), draft),
    ensures
        draft.index == index,
        draft.blob@.len() == len_bytes,
        forall|i: int| 8 <= i < len_bytes ==> #[trigger] draft.blob@[i] == fill,
        len_bytes < 8 ==> forall|i: int|
            1 <= i < len_bytes ==> #[trigger] draft.blob@[i] == fill,
        len_bytes < 8 ==> draft.blob@[0] == fill + index % 255 || draft.blob@[0] == fill + index
            % 255 - 256,
        len_bytes >= 8 ==> draft.blob@[0] + 0x100 * draft.blob@[1] + 0x1_0000 * draft.blob@[2] + 0x100_0000
            * draft.blob@[3] + 0x1_0000_0000 * draft.blob@[4] + 0x100_0000_0000 * draft.blob@[5]
            + 0x1_0000_0000_0000 * draft.blob@[6] + 0x100_0000_0000_0000 * draft.blob@[7]
            == index,
        draft.hash@ == keccak_256_of(draft.blob@),
{
    if len_bytes >= 8 {
        payloads_hold_mark_and_filling(fill, len_bytes as nat, index as u64);
    } else {
        short_payloads_hold_mark_and_filling(fill, len_bytes as nat, index as u64);
    }
}

/// A blob is prepared exactly if its commitment was computed, with a claim of sixteen bytes; then
/// everything computed is kept as it is. Otherwise the message says which step failed, and ends
/// in the detail of that step.
pub proof fn blobs_are_prepared_from_computed_commitments(
    draft: BlobDraft,
    outcome: CommitOutcome,
    r: Result<PreparedBlob, String>,
)
    requires
        call_ensures(precompute_blob, (draft, outcome), r),
    ensures
        r is Ok <==> {
            &&& outcome is Computed
            &&& outcome->Computed_claim@.len() == 16
        },
        r matches Ok(prepared) ==> {
            &&& prepared.index == draft.index
            &&& prepared.blob@ == draft.blob@
            &&& prepared.hash@ == draft.hash@
            &&& prepared.commitment@ == outcome->Computed_commitment@
            &&& prepared.seed@ == outcome->Computed_seed@
            &&& prepared.claim@ == outcome->Computed_claim@
        },
        r matches Err(message) ==> match outcome {
            CommitOutcome::EncodeFailed(detail) => message@ == "encode error: "@ + detail@,
            CommitOutcome::ContextFailed(detail) => message@ == "init fri context error: "@
                + detail@,
            CommitOutcome::CommitFailed(detail) => message@ == "commit error: "@ + detail@,
            CommitOutcome::ClaimFailed(detail) => message@ == "evaluation claim error: "@
                + detail@,
            CommitOutcome::Computed { .. } => message@ == "invalid claim byte length"@,
        },
{
}

/// A filled blob is as long as was asked for. Behind its mark, eight bytes or else the first
/// byte, every byte up to the end is the filling.
pub proof fn blobs_are_filled_to_their_end(fill: u8, len_bytes: usize, unique: u64, blob: Vec<u8>)
    requires
        len_bytes > 0,
        call_ensures(fill_blob, (fill, len_bytes, unique), blob),
    ensures
        blob@.len() == len_bytes,
        len_bytes >= 8 ==> forall|i: int| 8 <= i < len_bytes ==> #[trigger] blob@[i] == fill,
        len_bytes < 8 ==> forall|i: int| 1 <= i < len_bytes ==> #[trigger] blob@[i] == fill,
        len_bytes < 8 ==> blob@[0] == fill + unique % 255 || blob@[0] == fill + unique % 255
            - 256,
{
    if len_bytes >= 8 {
        payloads_hold_mark_and_filling(fill, len_bytes as nat, unique);
    } else {
        short_payloads_hold_mark_and_filling(fill, len_bytes as nat, unique);
    }
}

/// Application ids go round: the first five blobs have their index as id, and every further one
/// the id of the blob five before it.
pub proof fn application_ids_go_round(index: usize, further: usize, id: u32, further_id: u32)
    requires
        call_ensures(app_id_for, (index,), id),
        call_ensures(app_id_for, (further,), further_id),
    ensures
        id < 5,
        index < 5 ==> id == index,
        further == index + 5 ==> further_id == id,
{
}

/// The chain is told the hash and the size of the very blob, and what was computed for it.
pub proof fn metadata_describe_the_blob(prepared: &PreparedBlob, app_id: u32, r: BlobMetadata)
    requires
        call_ensures(PreparedBlob::metadata, (prepared, app_id), r),
    ensures
        r.app_id == app_id,
        r.hash@ == prepared.hash@,
        r.size == prepared.blob@.len(),
        r.commitment@ == prepared.commitment@,
        r.seed == Some(prepared.seed),
        r.claim == Some(prepared.claim),
{
}

/// Claim bytes are taken exactly if there are sixteen of them, and then each as it is.
pub proof fn claims_are_taken_byte_by_byte(claim: &Vec<u8>, r: Option<[u8; 16]>)
    requires
        call_ensures(claim_bytes, (claim,), r),
    ensures
        r is Some <==> claim@.len() == 16,
        r matches Some(bytes) ==> forall|i: int| 0 <= i < 16 ==> #[trigger] bytes@[i] == claim@[i],
{
}

} // verus!
