//! The multi-account program: fund many derived accounts, then submit from them in turn.

use avail_rust_client::Keypair;
use vstd::arithmetic::div_mod::{
    lemma_div_is_ordered, lemma_fundamental_div_mod, lemma_fundamental_div_mod_converse,
};
use vstd::prelude::*;

use crate::account::{account_id, public_key_of};
use crate::blob::{app_id_for, PreparedBlob};
use crate::config::{low_byte, sybil_fill_byte};
use crate::nonce::{
    after_raise, reserved, reserved_nonces_are_distinct, NonceCounter, NonceOp,
};
use crate::retry::Submission;
use crate::rpc_error::{is_out_of_step, nonce_error_is_exactly_its_words, says_out_of_step};
use crate::spammer::submit_result;
use crate::stats::SubmitResult;
use crate::text::{lowercase, prefixed};

verus! {

/// Whether a rejection points at a wrong nonce. A transaction that is imported already is not
/// meant here.
pub fn is_nonce_error(message: &str) -> (r: bool)
    ensures
        r == says_out_of_step(message@),
{
    is_out_of_step(message)
}

/// `avail_rust_client::constants::ONE_AVAIL`: the base units in one AVAIL.
#[verifier::external_body]
fn one_avail() -> (r: u128)
    ensures
        r == 1_000_000_000_000_000_000,
{
    avail_rust_client::constants::ONE_AVAIL
}

/// The base units that each account gets: the given AVAIL, or the largest amount where that is
/// too much.
pub fn amount_units(fund_each: u128) -> (units: u128)
    ensures
        units == (if fund_each * 1_000_000_000_000_000_000 <= u128::MAX {
            fund_each * 1_000_000_000_000_000_000
        } else {
            u128::MAX as int
        }),
{
    match fund_each.checked_mul(one_avail()) {
        Some(units) => units,
        None => u128::MAX,
    }
}

/// A transfer to an account.
#[derive(Clone, Copy, Debug)]
pub struct Transfer {
    pub dest: [u8; 32],
    pub amount: u128,
}

/// Transfers that are submitted together, and the nonce of the funder for them.
#[derive(Debug)]
pub struct FundingBatch {
    pub nonce: u32,
    pub transfers: Vec<Transfer>,
}

/// How many batches of at most `batch_size` it takes for `accounts` accounts.
pub open spec fn batch_count(accounts: nat, batch_size: nat) -> nat
    recommends
        batch_size > 0,
{
    if accounts == 0 {
        0
    } else {
        (accounts - 1) as nat / batch_size + 1
    }
}

/// The accounts from `from` on that go into one batch.
pub open spec fn batch_len(accounts: int, batch_size: int, from: int) -> int {
    if accounts - from < batch_size {
        accounts - from
    } else {
        batch_size
    }
}

/// `transfers` pays `amount` to each of the accounts from `from` on, in order.
pub open spec fn pays_from(
    transfers: Seq<Transfer>,
    accounts: Seq<Keypair>,
    from: int,
    amount: u128,
) -> bool {
    forall|j: int|
        0 <= j < transfers.len() ==> (#[trigger] transfers[j]).amount == amount
            && transfers[j].dest@ == public_key_of(accounts[from + j])
}

/// The batch that starts at account `from`.
pub fn funding_batch(
    accounts: &Vec<Keypair>,
    from: usize,
    batch_size: usize,
    amount: u128,
    nonce: u32,
) -> (batch: FundingBatch)
    requires
        from < accounts@.len(),
        batch_size > 0,
    ensures
        batch.nonce == nonce,
        batch.transfers@.len() == batch_len(accounts@.len() as int, batch_size as int, from as int),
        pays_from(batch.transfers@, accounts@, from as int, amount),
{
    let len: usize = if accounts.len() - from < batch_size {
        accounts.len() - from
    } else {
        batch_size
    };
    let mut transfers: Vec<Transfer> = Vec::with_capacity(len);
    let mut j: usize = 0;
    while j < len
        invariant
            j <= len,
            from + len <= accounts.len(),
            transfers@.len() == j,
            pays_from(transfers@, accounts@, from as int, amount),
        decreases len - j,
    {
        transfers.push(Transfer { dest: account_id(&accounts[from + j]), amount });
        j += 1;
    }
    FundingBatch { nonce, transfers }
}

/// The batches that fund `accounts`: consecutive runs of `batch_size` accounts, the last one
/// possibly shorter, with consecutive nonces.
pub fn funding_batches(
    accounts: &Vec<Keypair>,
    batch_size: usize,
    amount: u128,
    first_nonce: u32,
) -> (batches: Vec<FundingBatch>)
    requires
        batch_size > 0,
        first_nonce + batch_count(accounts@.len(), batch_size as nat) <= u32::MAX,
    ensures
        batches@.len() == batch_count(accounts@.len(), batch_size as nat),
        forall|b: int|
            #![trigger batches@[b]]
            0 <= b < batches@.len() ==> {
                &&& batches@[b].nonce == first_nonce + b
                &&& batches@[b].transfers@.len() == batch_len(
                    accounts@.len() as int,
                    batch_size as int,
                    b * batch_size,
                )
                &&& pays_from(batches@[b].transfers@, accounts@, b * batch_size, amount)
            },
{
    let mut batches: Vec<FundingBatch> = Vec::new();
    let mut from: usize = 0;
    let mut nonce: u32 = first_nonce;
    let ghost total = batch_count(accounts@.len(), batch_size as nat);
    while from < accounts.len()
        invariant
            batch_size > 0,
            from <= accounts@.len(),
            total == batch_count(accounts@.len(), batch_size as nat),
            first_nonce + total <= u32::MAX,
            batches@.len() <= total,
            nonce == first_nonce + batches@.len(),
            from < accounts@.len() ==> from == batches@.len() * batch_size,
            from == accounts@.len() ==> batches@.len() == total,
            forall|b: int|
                #![trigger batches@[b]]
                0 <= b < batches@.len() ==> {
                    &&& batches@[b].nonce == first_nonce + b
                    &&& batches@[b].transfers@.len() == batch_len(
                        accounts@.len() as int,
                        batch_size as int,
                        b * batch_size,
                    )
                    &&& pays_from(batches@[b].transfers@, accounts@, b * batch_size, amount)
                },
        decreases accounts@.len() - from,
    {
        let batch = funding_batch(accounts, from, batch_size, amount, nonce);
        let ghost done = batches@.len() as int;
        let ghost size = batch_size as int;
        let ghost last = accounts@.len() - 1;
        proof {
            lemma_div_is_ordered(from as int, last, size);
            lemma_fundamental_div_mod_converse(from as int, size, done, 0);
            assert(done * size == from) by (nonlinear_arith)
                requires
                    from == done * size,
            ;
            assert((done + 1) * size == done * size + size) by (nonlinear_arith);
            if accounts@.len() - from <= batch_size {
                lemma_fundamental_div_mod_converse(last, size, done, last - from);
            } else {
                lemma_div_is_ordered(from + size, last, size);
                lemma_fundamental_div_mod_converse(from + size, size, done + 1, 0);
            }
        }
        batches.push(batch);
        nonce += 1;
        if accounts.len() - from <= batch_size {
            from = accounts.len();
        } else {
            from += batch_size;
        }
    }
    batches
}

/// What one submission is made with.
#[derive(Clone, Copy, Debug, PartialEq, Eq, Structural)]
pub struct Assignment {
    pub account_idx: usize,
    pub fill: u8,
    pub app_id: u32,
}

/// Assigns the submission with index `index` to an account: the accounts take turns.
pub fn assign(index: usize, accounts: usize, ch: Option<char>) -> (r: Assignment)
    requires
        accounts > 0,
    ensures
        r.account_idx == index % accounts,
        r.account_idx < accounts,
        r.fill == (match ch {
            Some(c) => low_byte(c) as int,
            None => 97 + ((index % accounts) % 256) % 26,
        }),
        r.app_id == index % 5,
{
    let account_idx = index % accounts;
    Assignment {
        account_idx,
        fill: sybil_fill_byte(ch, account_idx),
        app_id: app_id_for(index),
    }
}

/// Epoch randomness is fetched again once it is this old, in nanoseconds.
pub const RANDOMNESS_MAX_AGE_NS: u128 = 30_000_000_000;

/// Whether epoch randomness of this age has to be fetched again.
pub fn randomness_is_stale(age_ns: u128) -> (r: bool)
    ensures
        r == (age_ns >= 30_000_000_000),
{
    age_ns >= RANDOMNESS_MAX_AGE_NS
}

/// The nonce from which the account goes on after a submission with `nonce`: the next one after
/// a success, the same one after a failure.
pub open spec fn nonce_hint(nonce: u32, succeeded: bool) -> int {
    if succeeded {
        nonce + 1
    } else {
        nonce as int
    }
}

/// The nonce from which the account goes on after a submission with `nonce`.
pub fn next_nonce_hint(nonce: u32, succeeded: bool) -> (hint: u32)
    requires
        succeeded ==> nonce < u32::MAX,
    ensures
        hint == nonce_hint(nonce, succeeded),
{
    if succeeded {
        nonce + 1
    } else {
        nonce
    }
}

/// Moves the counter of an account on after a submission with `nonce`.
pub fn settle_nonce(counter: &mut NonceCounter, nonce: u32, succeeded: bool)
    requires
        succeeded ==> nonce < u32::MAX,
    ensures
        final(counter).next == after_raise(
            old(counter).next,
            nonce_hint(nonce, succeeded) as u32,
        ),
        final(counter).next >= old(counter).next,
        final(counter).next >= nonce,
        succeeded ==> final(counter).next > nonce,
        final(counter).next == old(counter).next || final(counter).next == (if succeeded {
            nonce + 1
        } else {
            nonce as int
        }),
{
    counter.raise_to(next_nonce_hint(nonce, succeeded));
}

/// A result, and the account it belongs to.
#[derive(Debug)]
pub struct AccountResult {
    pub account_idx: usize,
    pub result: SubmitResult,
}

/// The result of a submission from an account that came to an end.
pub fn account_result(
    account_idx: usize,
    prepared: &PreparedBlob,
    submission: &Submission,
    elapsed_ns: u128,
    err: Option<String>,
) -> (r: AccountResult)
    ensures
        r.account_idx == account_idx,
        r.result.index == prepared.index,
        r.result.nonce == submission.nonce,
        r.result.blob_len == prepared.blob@.len(),
        r.result.attempts == submission.attempts,
        r.result.elapsed_ns == elapsed_ns,
        r.result.err == err,
{
    AccountResult { account_idx, result: submit_result(prepared, submission, elapsed_ns, err) }
}

/// How the preparation of a blob failed.
pub enum PrecomputeFailure {
    /// The blob could not be prepared, with this message.
    Failed(String),
    /// The task that prepared it was lost, with this message.
    Lost(String),
}

/// The message for a failed preparation.
pub open spec fn precompute_failure_text(failure: PrecomputeFailure) -> Seq<char> {
    match failure {
        PrecomputeFailure::Failed(detail) => "precompute error: "@ + detail@,
        PrecomputeFailure::Lost(detail) => "precompute join error: "@ + detail@,
    }
}

/// The result of a submission whose blob could not be prepared: no attempt was made.
pub fn precompute_failed(
    index: usize,
    account_idx: usize,
    nonce: u32,
    len_bytes: usize,
    failure: PrecomputeFailure,
) -> (r: AccountResult)
    ensures
        r.account_idx == account_idx,
        r.result.index == index,
        r.result.nonce == nonce,
        r.result.blob_len == len_bytes,
        r.result.attempts == 0,
        r.result.elapsed_ns == 0,
        r.result.err matches Some(message) && message@ == precompute_failure_text(failure),
{
    let message = match failure {
        PrecomputeFailure::Failed(detail) => prefixed("precompute error: ", detail.as_str()),
        PrecomputeFailure::Lost(detail) => prefixed("precompute join error: ", detail.as_str()),
    };
    AccountResult {
        account_idx,
        result: SubmitResult {
            index,
            nonce,
            blob_len: len_bytes,
            attempts: 0,
            elapsed_ns: 0,
            err: Some(message),
        },
    }
}

/// Every account is funded by exactly one transfer: it stands in one batch, at one position.
pub proof fn every_account_is_funded_once(accounts: nat, batch_size: nat, i: nat)
    requires
        batch_size > 0,
        i < accounts,
    ensures
        i / batch_size < batch_count(accounts, batch_size),
        i % batch_size < batch_len(
            accounts as int,
            batch_size as int,
            (i / batch_size) * batch_size as int,
        ),
        (i / batch_size) * batch_size + i % batch_size == i,
        forall|b: int, j: int|
            #![trigger b * batch_size + j]
            0 <= b && 0 <= j < batch_size && b * batch_size + j == i ==> b == i / batch_size && j
                == i % batch_size,
{
    let size = batch_size as int;
    lemma_fundamental_div_mod(i as int, size);
    lemma_div_is_ordered(i as int, accounts - 1, size);
    assert(size * (i as int / size) == (i as int / size) * size) by (nonlinear_arith);
    assert forall|b: int, j: int|
        #![trigger b * batch_size + j]
        0 <= b && 0 <= j < batch_size && b * batch_size + j == i implies b == i / batch_size && j
        == i % batch_size by {
        lemma_fundamental_div_mod_converse(i as int, size, b, j);
    }
}

/// The accounts take turns: among as many consecutive submissions as there are accounts, each
/// account gets exactly one.
pub proof fn accounts_take_turns(first: nat, accounts: nat, account_idx: nat)
    requires
        accounts > 0,
        account_idx < accounts,
    ensures
        exists|index: nat|
            first <= index < first + accounts && #[trigger] (index % accounts) == account_idx,
        forall|a: nat, b: nat|
            first <= a < first + accounts && first <= b < first + accounts && #[trigger] (a
                % accounts) == #[trigger] (b % accounts) ==> a == b,
{
    let n = accounts as int;
    let r = first as int % n;
    let q = first as int / n;
    lemma_fundamental_div_mod(first as int, n);
    if account_idx >= r {
        let index = (first + (account_idx - r)) as nat;
        lemma_fundamental_div_mod_converse(index as int, n, q, account_idx as int);
        assert(index % accounts == account_idx);
    } else {
        let index = (first + n + (account_idx - r)) as nat;
        assert(n * q + n == n * (q + 1)) by (nonlinear_arith);
        lemma_fundamental_div_mod_converse(index as int, n, q + 1, account_idx as int);
        assert(index % accounts == account_idx);
    }
    assert forall|a: nat, b: nat|
        first <= a < first + accounts && first <= b < first + accounts && #[trigger] (a % accounts)
            == #[trigger] (b % accounts) implies a == b by {
        lemma_fundamental_div_mod(a as int, n);
        lemma_fundamental_div_mod(b as int, n);
        let qa = a as int / n;
        let qb = b as int / n;
        assert(a - b == n * (qa - qb)) by (nonlinear_arith)
            requires
                a == n * qa + a % accounts,
                b == n * qb + b % accounts,
                a % accounts == b % accounts,
        ;
        assert(qa == qb) by (nonlinear_arith)
            requires
                a - b == n * (qa - qb),
                -n < a - b < n,
                n > 0,
        ;
    }
}

/// After a success the account goes on behind the nonce that was used, whatever else its counter
/// is used for: no later submission starts with that nonce or a lower one. A failure leaves the
/// account where it is, unless a larger nonce was fetched.
pub proof fn success_moves_past_its_nonce(next: u32, nonce: u32, later: Seq<NonceOp>)
    requires
        nonce < u32::MAX,
    ensures
        after_raise(next, nonce_hint(nonce, true) as u32) > nonce,
        forall|i: int|
            0 <= i < reserved(after_raise(next, nonce_hint(nonce, true) as u32), later).len()
                ==> #[trigger] reserved(
                after_raise(next, nonce_hint(nonce, true) as u32),
                later,
            )[i] > nonce,
        after_raise(next, nonce_hint(nonce, false) as u32) == (if nonce > next {
            nonce
        } else {
            next
        }),
{
    reserved_nonces_are_distinct(after_raise(next, nonce_hint(nonce, true) as u32), later);
}

/// Over all batches together each account is paid the amount, and in order: the account at `i` by
/// the transfer at `i % batch_size` of the batch at `i / batch_size`.
pub proof fn every_account_is_paid(
    accounts: &Vec<Keypair>,
    batch_size: usize,
    amount: u128,
    first_nonce: u32,
    batches: Vec<FundingBatch>,
    i: int,
)
    requires
        batch_size > 0,
        call_ensures(funding_batches, (accounts, batch_size, amount, first_nonce), batches),
        0 <= i < accounts@.len(),
    ensures
        i / (batch_size as int) < batches@.len(),
        i % (batch_size as int) < batches@[i / batch_size as int].transfers@.len(),
        batches@[i / batch_size as int].transfers@[i % batch_size as int].dest@ == public_key_of(
            accounts@[i],
        ),
        batches@[i / batch_size as int].transfers@[i % batch_size as int].amount == amount,
{
    let size = batch_size as int;
    let b = i / size;
    every_account_is_funded_once(accounts@.len(), batch_size as nat, i as nat);
    lemma_fundamental_div_mod(i, size);
    assert(0 <= b) by (nonlinear_arith)
        requires
            b == i / size,
            0 <= i,
            size > 0,
    ;
    assert(pays_from(batches@[b].transfers@, accounts@, b * size, amount));
    assert(batches@[b].transfers@[i % size].amount == amount);
}

/// No batch pays anything else: every transfer of every batch goes to an account, and no two go
/// to the same one, since the transfer at `j` of the batch at `b` pays the account at
/// `b * batch_size + j` and no batch has more than `batch_size` of them. No batch is empty, and
/// the nonces of the batches are consecutive.
pub proof fn nothing_is_paid_twice(
    accounts: &Vec<Keypair>,
    batch_size: usize,
    amount: u128,
    first_nonce: u32,
    batches: Vec<FundingBatch>,
    b: int,
)
    requires
        batch_size > 0,
        call_ensures(funding_batches, (accounts, batch_size, amount, first_nonce), batches),
        0 <= b < batches@.len(),
    ensures
        batches@[b].nonce == first_nonce + b,
        0 < batches@[b].transfers@.len() <= batch_size,
        b * batch_size + batches@[b].transfers@.len() <= accounts@.len(),
        forall|j: int|
            0 <= j < batches@[b].transfers@.len() ==> {
                &&& (#[trigger] batches@[b].transfers@[j]).dest@ == public_key_of(
                    accounts@[b * batch_size + j],
                )
                &&& batches@[b].transfers@[j].amount == amount
            },
{
    let n = accounts@.len();
    let size = batch_size as int;
    lemma_fundamental_div_mod(n - 1, size);
    assert(b * size <= n - 1) by (nonlinear_arith)
        requires
            b <= (n - 1) / size,
            n - 1 == size * ((n - 1) / size) + (n - 1) % size,
            (n - 1) % size >= 0,
            size > 0,
    ;
}

/// The batch that starts at account `from` pays the amount to the accounts from there on, each
/// once and in order, until it has `batch_size` transfers or the accounts are at their end.
pub proof fn a_batch_pays_its_accounts_in_order(
    accounts: &Vec<Keypair>,
    from: usize,
    batch_size: usize,
    amount: u128,
    nonce: u32,
    batch: FundingBatch,
)
    requires
        from < accounts@.len(),
        call_ensures(funding_batch, (accounts, from, batch_size, amount, nonce), batch),
    ensures
        batch.nonce == nonce,
        batch.transfers@.len() <= batch_size,
        from + batch.transfers@.len() <= accounts@.len(),
        batch.transfers@.len() == batch_size || from + batch.transfers@.len() == accounts@.len(),
        forall|j: int|
            0 <= j < batch.transfers@.len() ==> {
                &&& (#[trigger] batch.transfers@[j]).dest@ == public_key_of(accounts@[from + j])
                &&& batch.transfers@[j].amount == amount
            },
{
}

/// What an account goes on with: the nonce behind the one used after a success, and the very one
/// used after a failure. Its counter is raised to that, and never goes down.
pub proof fn accounts_go_on_behind_a_success(next: u32, nonce: u32)
    ensures
        nonce_hint(nonce, true) == nonce + 1,
        nonce_hint(nonce, false) == nonce,
        nonce < u32::MAX ==> after_raise(next, nonce_hint(nonce, true) as u32) == (if nonce
            >= next {
            nonce + 1
        } else {
            next as int
        }),
        after_raise(next, nonce_hint(nonce, false) as u32) >= next,
{
}

/// A failed preparation is reported with its own detail behind the step that failed, for the
/// submission it belongs to, as a failure without an attempt and without any time.
pub proof fn failed_preparations_say_what_failed(
    index: usize,
    account_idx: usize,
    nonce: u32,
    len_bytes: usize,
    failure: PrecomputeFailure,
    r: AccountResult,
)
    requires
        call_ensures(precompute_failed, (index, account_idx, nonce, len_bytes, failure), r),
    ensures
        r.account_idx == account_idx,
        r.result.index == index,
        r.result.nonce == nonce,
        r.result.blob_len == len_bytes,
        r.result.attempts == 0,
        r.result.elapsed_ns == 0,
        r.result.err is Some,
        match failure {
            PrecomputeFailure::Failed(detail) => r.result.err->0@ == "precompute error: "@
                + detail@,
            PrecomputeFailure::Lost(detail) => r.result.err->0@ == "precompute join error: "@
                + detail@,
        },
{
}

/// Whole AVAIL become base units by a factor of ten to the eighteenth. What is more than the
/// largest amount becomes that amount, so that no account ever gets less for a larger setting.
pub proof fn amounts_scale_and_never_wrap(a: u128, b: u128, units_a: u128, units_b: u128)
    requires
        call_ensures(amount_units, (a,), units_a),
        call_ensures(amount_units, (b,), units_b),
        a <= b,
    ensures
        a * 1_000_000_000_000_000_000 <= u128::MAX ==> units_a == a * 1_000_000_000_000_000_000,
        a * 1_000_000_000_000_000_000 > u128::MAX ==> units_a == u128::MAX,
        units_a <= units_b,
{
}

/// Submissions go round the accounts and round the five application ids: an account and an id
/// are used again after as many submissions as there are of them, and not before.
pub proof fn assignments_go_round(
    a: usize,
    b: usize,
    accounts: usize,
    ch: Option<char>,
    at_a: Assignment,
    at_b: Assignment,
)
    requires
        accounts > 0,
        call_ensures(assign, (a, accounts, ch), at_a),
        call_ensures(assign, (b, accounts, ch), at_b),
    ensures
        at_a.account_idx < accounts,
        a < accounts ==> at_a.account_idx == a,
        b == a + accounts ==> at_b.account_idx == at_a.account_idx && at_b.fill == at_a.fill,
        b == a + 1 ==> at_b.account_idx == (if at_a.account_idx + 1 < accounts {
            at_a.account_idx + 1
        } else {
            0
        }),
        at_a.app_id < 5,
        a < 5 ==> at_a.app_id == a,
        b == a + 5 ==> at_b.app_id == at_a.app_id,
        ch matches Some(c) ==> (c as u32 - at_a.fill) % 256 == 0,
        ch is None ==> at_a.fill == 97 + (at_a.account_idx % 256) % 26,
{
    let n = accounts as int;
    lemma_fundamental_div_mod(a as int, n);
    let q = a as int / n;
    let r = a as int % n;
    if a < accounts {
        lemma_fundamental_div_mod_converse(a as int, n, 0, a as int);
    }
    assert(n * (q + 1) == n * q + n) by (nonlinear_arith);
    if b == a + accounts {
        lemma_fundamental_div_mod_converse(b as int, n, q + 1, r);
    }
    if b == a + 1 {
        if r + 1 < n {
            lemma_fundamental_div_mod_converse(b as int, n, q, r + 1);
        } else {
            lemma_fundamental_div_mod_converse(b as int, n, q + 1, 0);
        }
    }
}

/// Epoch randomness lasts thirty seconds: before that it is never fetched again, from then on
/// always.
pub proof fn randomness_lasts_thirty_seconds(seconds: u64, nanos: u32, age_ns: u128, stale: bool)
    requires
        nanos < 1_000_000_000,
        age_ns == seconds * 1_000_000_000 + nanos,
        call_ensures(randomness_is_stale, (age_ns,), stale),
    ensures
        stale <==> seconds >= 30,
{
}

/// The account goes on with the next nonce after a success and with the same one after a failure.
pub proof fn hints_follow_the_outcome(nonce: u32, succeeded: bool, hint: u32)
    requires
        succeeded ==> nonce < u32::MAX,
        call_ensures(next_nonce_hint, (nonce, succeeded), hint),
    ensures
        succeeded ==> hint == nonce + 1,
        !succeeded ==> hint == nonce,
{
}

/// The result of a submission from an account names that account, and otherwise says of the blob
/// and of the submission what they say themselves.
pub proof fn account_results_say_what_happened(
    account_idx: usize,
    prepared: &PreparedBlob,
    submission: &Submission,
    elapsed_ns: u128,
    err: Option<String>,
    r: AccountResult,
)
    requires
        call_ensures(account_result, (account_idx, prepared, submission, elapsed_ns, err), r),
    ensures
        r.account_idx == account_idx,
        r.result.index == prepared.index,
        r.result.blob_len == prepared.blob@.len(),
        r.result.nonce == submission.nonce,
        r.result.attempts == submission.attempts,
        r.result.elapsed_ns == elapsed_ns,
        r.result.err == err,
{
}

/// Out of step is read from the words of a message alone, whatever it says of an imported
/// transaction.
pub proof fn nonce_errors_are_the_messages_out_of_step(message: &str, r: bool)
    requires
        call_ensures(is_nonce_error, (message,), r),
    ensures
        r <==> {
            ||| exists|before: Seq<char>, behind: Seq<char>|
                lowercase(message@) == #[trigger] (before + "stale"@ + behind)
            ||| exists|before: Seq<char>, behind: Seq<char>|
                lowercase(message@) == #[trigger] (before + "future"@ + behind)
            ||| exists|before: Seq<char>, behind: Seq<char>|
                lowercase(message@) == #[trigger] (before + "invalid transaction"@ + behind)
            ||| exists|before: Seq<char>, behind: Seq<char>|
                lowercase(message@) == #[trigger] (before + "bad proof"@ + behind)
            ||| exists|before: Seq<char>, behind: Seq<char>|
                lowercase(message@) == #[trigger] (before + "priority is too low"@ + behind)
        },
{
    nonce_error_is_exactly_its_words(message@);
}

/// Settling a submission moves the counter of its account up to the nonce it goes on with, if
/// that is ahead: behind the nonce used after a success, that nonce itself after a failure.
pub proof fn settling_moves_the_counter_up()
    ensures
        forall|counter: &mut NonceCounter, nonce: u32, succeeded: bool|
            #[trigger] call_ensures(settle_nonce, (counter, nonce, succeeded), ()) && nonce
                < u32::MAX ==> {
                let hint = if succeeded {
                    nonce + 1
                } else {
                    nonce as int
                };
                &&& hint > counter.next ==> final(counter).next == hint
                &&& hint <= counter.next ==> final(counter).next == counter.next
            },
{
}

} // verus!
