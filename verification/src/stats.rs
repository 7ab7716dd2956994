//! Counting what became of submissions.

use vstd::arithmetic::div_mod::{lemma_fundamental_div_mod_converse, lemma_small_mod};
use vstd::prelude::*;

verus! {

/// What became of one submission.
#[derive(Debug)]
pub struct SubmitResult {
    pub index: usize,
    pub nonce: u32,
    pub blob_len: usize,
    pub attempts: u32,
    pub elapsed_ns: u128,
    pub err: Option<String>,
}

/// Counts over the submissions of a run or of a batch.
#[derive(Clone, Copy, Debug, PartialEq, Eq, Structural)]
pub struct BatchStats {
    pub ok: usize,
    pub failed: usize,
    pub retries: usize,
    pub bytes_ok: u64,
    pub submit_ms_ok: u64,
}

/// The sum of a count and an addend, as a `usize` that starts over at the end of its range.
pub open spec fn sum_usize(count: usize, more: int) -> int {
    (count + more) % (usize::MAX + 1)
}

/// The sum of a count and an addend, as a `u64` that starts over at the end of its range.
pub open spec fn sum_u64(count: u64, more: int) -> int {
    (count + more) % (u64::MAX + 1)
}

fn add_usize(count: usize, more: usize) -> (sum: usize)
    ensures
        sum == sum_usize(count, more as int),
{
    proof {
        let total = count + more;
        if total > usize::MAX {
            lemma_fundamental_div_mod_converse(
                total,
                usize::MAX + 1,
                1,
                total - (usize::MAX + 1),
            );
        } else {
            lemma_fundamental_div_mod_converse(total, usize::MAX + 1, 0, total);
        }
    }
    count.wrapping_add(more)
}

impl SubmitResult {
    /// The attempts after the first.
    pub open spec fn retries(self) -> int {
        if self.attempts > 1 {
            self.attempts - 1
        } else {
            0
        }
    }

    /// The time from the first attempt to the last, in whole milliseconds.
    pub open spec fn elapsed_ms(self) -> int {
        self.elapsed_ns as int / 1_000_000
    }
}

impl BatchStats {
    /// No submissions yet.
    pub open spec fn empty() -> BatchStats {
        BatchStats { ok: 0, failed: 0, retries: 0, bytes_ok: 0, submit_ms_ok: 0 }
    }

    /// The counts after one more failure that left no result.
    pub open spec fn after_failure(self) -> BatchStats {
        BatchStats { failed: sum_usize(self.failed, 1) as usize, ..self }
    }

    /// The counts after one more result.
    pub open spec fn after_result(self, result: SubmitResult) -> BatchStats {
        let counted = BatchStats {
            retries: sum_usize(self.retries, result.retries()) as usize,
            ..self
        };
        if result.err is None {
            BatchStats {
                ok: sum_usize(self.ok, 1) as usize,
                bytes_ok: sum_u64(self.bytes_ok, result.blob_len as int) as u64,
                submit_ms_ok: sum_u64(self.submit_ms_ok, result.elapsed_ms()) as u64,
                ..counted
            }
        } else {
            counted.after_failure()
        }
    }

    /// No submissions yet.
    pub fn new() -> (r: BatchStats)
        ensures
            r == BatchStats::empty(),
    {
        BatchStats { ok: 0, failed: 0, retries: 0, bytes_ok: 0, submit_ms_ok: 0 }
    }

    /// Counts a failure that left no result.
    pub fn record_failure(&mut self)
        ensures
            *final(self) == old(self).after_failure(),
    {
        self.failed = add_usize(self.failed, 1);
    }

    /// Counts a result.
    pub fn record(&mut self, result: &SubmitResult)
        ensures
            *final(self) == old(self).after_result(*result),
    {
        let retries: usize = if result.attempts > 1 {
            (result.attempts - 1) as usize
        } else {
            0
        };
        self.retries = add_usize(self.retries, retries);
        match &result.err {
            None => {
                let ms: u128 = result.elapsed_ns / 1_000_000;
                let ms_low: u64 = (ms % 0x1_0000_0000_0000_0000) as u64;
                self.ok = add_usize(self.ok, 1);
                self.bytes_ok = self.bytes_ok.wrapping_add(result.blob_len as u64);
                self.submit_ms_ok = self.submit_ms_ok.wrapping_add(ms_low);
            },
            Some(_) => {
                self.record_failure();
            },
        }
    }
}

/// What is counted: the result of a submission, or a failure that left none.
pub ghost enum Outcome {
    Result(SubmitResult),
    Failure,
}

impl Outcome {
    /// A submission that ended without an error.
    pub open spec fn succeeded(self) -> bool {
        self matches Outcome::Result(result) && result.err is None
    }

    /// The attempts after the first.
    pub open spec fn retries(self) -> int {
        match self {
            Outcome::Result(result) => result.retries(),
            Outcome::Failure => 0,
        }
    }

    /// The bytes of the blob, if it was taken.
    pub open spec fn bytes_ok(self) -> int {
        match self {
            Outcome::Result(result) if result.err is None => result.blob_len as int,
            _ => 0,
        }
    }

    /// The milliseconds of the submission, if it succeeded.
    pub open spec fn ms_ok(self) -> int {
        match self {
            Outcome::Result(result) if result.err is None => result.elapsed_ms(),
            _ => 0,
        }
    }
}

/// The counts after `outcomes`, starting from none.
pub open spec fn after_outcomes(outcomes: Seq<Outcome>) -> BatchStats
    decreases outcomes.len(),
{
    if outcomes.len() == 0 {
        BatchStats::empty()
    } else {
        let before = after_outcomes(outcomes.drop_last());
        match outcomes.last() {
            Outcome::Result(result) => before.after_result(result),
            Outcome::Failure => before.after_failure(),
        }
    }
}

/// The number of submissions that ended without an error.
pub open spec fn successes(outcomes: Seq<Outcome>) -> nat
    decreases outcomes.len(),
{
    if outcomes.len() == 0 {
        0
    } else {
        successes(outcomes.drop_last()) + (if outcomes.last().succeeded() {
            1nat
        } else {
            0nat
        })
    }
}

/// The retries of all submissions together.
pub open spec fn total_retries(outcomes: Seq<Outcome>) -> int
    decreases outcomes.len(),
{
    if outcomes.len() == 0 {
        0
    } else {
        total_retries(outcomes.drop_last()) + outcomes.last().retries()
    }
}

/// The bytes of the blobs that were taken.
pub open spec fn total_bytes(outcomes: Seq<Outcome>) -> int
    decreases outcomes.len(),
{
    if outcomes.len() == 0 {
        0
    } else {
        total_bytes(outcomes.drop_last()) + outcomes.last().bytes_ok()
    }
}

/// The milliseconds of the submissions that succeeded.
pub open spec fn total_ms(outcomes: Seq<Outcome>) -> int
    decreases outcomes.len(),
{
    if outcomes.len() == 0 {
        0
    } else {
        total_ms(outcomes.drop_last()) + outcomes.last().ms_ok()
    }
}

/// A sum that fits is not changed.
pub proof fn small_sum_usize(count: usize, more: int)
    requires
        0 <= more,
        count + more <= usize::MAX,
    ensures
        sum_usize(count, more) == count + more,
{
    lemma_small_mod((count + more) as nat, (usize::MAX + 1) as nat);
}

/// Every outcome is counted once, as a success or as a failure: after any mix of results and of
/// failures without one, the successes and the failures are as many as the outcomes.
pub proof fn every_outcome_is_counted_once(outcomes: Seq<Outcome>)
    requires
        outcomes.len() <= usize::MAX,
    ensures
        after_outcomes(outcomes).ok == successes(outcomes),
        after_outcomes(outcomes).ok + after_outcomes(outcomes).failed == outcomes.len(),
    decreases outcomes.len(),
{
    if outcomes.len() > 0 {
        every_outcome_is_counted_once(outcomes.drop_last());
        let before = after_outcomes(outcomes.drop_last());
        if outcomes.last().succeeded() {
            small_sum_usize(before.ok, 1);
        } else {
            small_sum_usize(before.failed, 1);
        }
    }
}

/// Each total is the sum over the outcomes, as long as that fits its counter.
pub proof fn totals_are_sums(outcomes: Seq<Outcome>)
    ensures
        total_retries(outcomes) <= usize::MAX ==> after_outcomes(outcomes).retries
            == total_retries(outcomes),
        total_bytes(outcomes) <= u64::MAX ==> after_outcomes(outcomes).bytes_ok == total_bytes(
            outcomes,
        ),
        total_ms(outcomes) <= u64::MAX ==> after_outcomes(outcomes).submit_ms_ok == total_ms(
            outcomes,
        ),
        0 <= total_retries(outcomes),
        0 <= total_bytes(outcomes),
        0 <= total_ms(outcomes),
    decreases outcomes.len(),
{
    if outcomes.len() > 0 {
        totals_are_sums(outcomes.drop_last());
        let before = after_outcomes(outcomes.drop_last());
        if total_retries(outcomes) <= usize::MAX {
            small_sum_usize(before.retries, outcomes.last().retries());
        }
    }
}

/// The attempts of all submissions together.
pub open spec fn total_attempts(outcomes: Seq<Outcome>) -> int
    decreases outcomes.len(),
{
    if outcomes.len() == 0 {
        0
    } else {
        total_attempts(outcomes.drop_last()) + match outcomes.last() {
            Outcome::Result(result) => result.attempts as int,
            Outcome::Failure => 0,
        }
    }
}

/// The number of submissions that were attempted at all.
pub open spec fn attempted(outcomes: Seq<Outcome>) -> int
    decreases outcomes.len(),
{
    if outcomes.len() == 0 {
        0
    } else {
        attempted(outcomes.drop_last()) + match outcomes.last() {
            Outcome::Result(result) if result.attempts >= 1 => 1int,
            _ => 0,
        }
    }
}

/// A result adds every attempt after its first to the retries, and nothing if there was no
/// attempt. Without an error it adds one success, its bytes and its whole milliseconds, with one
/// it adds a failure; nothing else changes. A counter at the end of its range starts over.
pub proof fn a_result_adds_what_it_brought(before: BatchStats, result: SubmitResult)
    ensures
        ({
            let after = before.after_result(result);
            let range = usize::MAX + 1;
            &&& result.attempts == 0 ==> after.retries == before.retries
            &&& result.attempts >= 1 ==> {
                ||| after.retries == before.retries + result.attempts - 1
                ||| after.retries == before.retries + result.attempts - 1 - range
            }
            &&& result.err is None ==> {
                &&& after.ok == before.ok + 1 || after.ok == before.ok + 1 - range
                &&& after.failed == before.failed
                &&& {
                    ||| after.bytes_ok == before.bytes_ok + result.blob_len
                    ||| after.bytes_ok == before.bytes_ok + result.blob_len
                        - 0x1_0000_0000_0000_0000
                }
                &&& after.submit_ms_ok == (before.submit_ms_ok + result.elapsed_ns as int
                    / 1_000_000) % 0x1_0000_0000_0000_0000
            }
            &&& result.err is Some ==> {
                &&& after.failed == before.failed + 1 || after.failed == before.failed + 1 - range
                &&& after.ok == before.ok
                &&& after.bytes_ok == before.bytes_ok
                &&& after.submit_ms_ok == before.submit_ms_ok
            }
        }),
{
    wrapped_sum_usize(before.retries, result.retries());
    wrapped_sum_usize(before.ok, 1);
    wrapped_sum_usize(before.failed, 1);
}

/// A failure that left no result adds one to the failures and changes nothing else.
pub proof fn a_failure_adds_one_failure(before: BatchStats)
    ensures
        ({
            let after = before.after_failure();
            &&& after.failed == before.failed + 1 || after.failed == before.failed + 1 - (
            usize::MAX + 1)
            &&& after.ok == before.ok
            &&& after.retries == before.retries
            &&& after.bytes_ok == before.bytes_ok
            &&& after.submit_ms_ok == before.submit_ms_ok
        }),
{
    wrapped_sum_usize(before.failed, 1);
}

/// A sum that starts over does so once.
proof fn wrapped_sum_usize(count: usize, more: int)
    requires
        0 <= more <= usize::MAX,
    ensures
        sum_usize(count, more) == (if count + more <= usize::MAX {
            count + more
        } else {
            count + more - (usize::MAX + 1)
        }),
{
    let total = count + more;
    if total > usize::MAX {
        lemma_fundamental_div_mod_converse(total, usize::MAX + 1, 1, total - (usize::MAX + 1));
    } else {
        lemma_fundamental_div_mod_converse(total, usize::MAX + 1, 0, total);
    }
}

/// Over a whole run the retries are all attempts but the first of each submission that was
/// attempted, as long as their counter holds them.
pub proof fn retries_are_the_attempts_after_the_first(outcomes: Seq<Outcome>)
    ensures
        0 <= attempted(outcomes) <= total_attempts(outcomes),
        total_attempts(outcomes) - attempted(outcomes) <= usize::MAX ==> after_outcomes(
            outcomes,
        ).retries == total_attempts(outcomes) - attempted(outcomes),
    decreases outcomes.len(),
{
    if outcomes.len() > 0 {
        let fewer = outcomes.drop_last();
        retries_are_the_attempts_after_the_first(fewer);
        match outcomes.last() {
            Outcome::Result(result) => {
                a_result_adds_what_it_brought(after_outcomes(fewer), result);
            },
            Outcome::Failure => {
                a_failure_adds_one_failure(after_outcomes(fewer));
            },
        }
    }
}

/// Counting starts at zero. As long as the counters hold it, recording a result adds to them what
/// the result brought, and recording a failure adds one failure.
pub proof fn recording_adds_to_the_counts()
    ensures
        forall|stats: BatchStats| #[trigger]
            call_ensures(BatchStats::new, (), stats) ==> {
                &&& stats.ok == 0 && stats.failed == 0 && stats.retries == 0
                &&& stats.bytes_ok == 0 && stats.submit_ms_ok == 0
            },
        forall|stats: &mut BatchStats, result: &SubmitResult|
            {
                &&& #[trigger] call_ensures(BatchStats::record, (stats, result), ())
                &&& stats.ok < usize::MAX && stats.failed < usize::MAX
                &&& stats.retries + result.attempts <= usize::MAX
                &&& stats.bytes_ok + result.blob_len <= u64::MAX
                &&& stats.submit_ms_ok + result.elapsed_ns as int / 1_000_000 <= u64::MAX
            } ==> {
                &&& result.attempts == 0 ==> final(stats).retries == stats.retries
                &&& result.attempts >= 1 ==> final(stats).retries == stats.retries
                    + result.attempts - 1
                &&& result.err is None ==> {
                    &&& final(stats).ok == stats.ok + 1
                    &&& final(stats).failed == stats.failed
                    &&& final(stats).bytes_ok == stats.bytes_ok + result.blob_len
                    &&& final(stats).submit_ms_ok == stats.submit_ms_ok + result.elapsed_ns as int
                        / 1_000_000
                }
                &&& result.err is Some ==> {
                    &&& final(stats).ok == stats.ok
                    &&& final(stats).failed == stats.failed + 1
                    &&& final(stats).bytes_ok == stats.bytes_ok
                    &&& final(stats).submit_ms_ok == stats.submit_ms_ok
                }
            },
        forall|stats: &mut BatchStats|
            {
                &&& #[trigger] call_ensures(BatchStats::record_failure, (stats,), ())
                &&& stats.failed < usize::MAX
            } ==> {
                &&& final(stats).failed == stats.failed + 1
                &&& final(stats).ok == stats.ok
                &&& final(stats).retries == stats.retries
                &&& final(stats).bytes_ok == stats.bytes_ok
                &&& final(stats).submit_ms_ok == stats.submit_ms_ok
            },
{
    assert forall|stats: &mut BatchStats, result: &SubmitResult|
        {
            &&& #[trigger] call_ensures(BatchStats::record, (stats, result), ())
            &&& stats.ok < usize::MAX && stats.failed < usize::MAX
            &&& stats.retries + result.attempts <= usize::MAX
            &&& stats.bytes_ok + result.blob_len <= u64::MAX
            &&& stats.submit_ms_ok + result.elapsed_ns as int / 1_000_000 <= u64::MAX
        } implies {
        &&& result.attempts == 0 ==> final(stats).retries == stats.retries
        &&& result.attempts >= 1 ==> final(stats).retries == stats.retries + result.attempts - 1
        &&& result.err is None ==> {
            &&& final(stats).ok == stats.ok + 1
            &&& final(stats).failed == stats.failed
            &&& final(stats).bytes_ok == stats.bytes_ok + result.blob_len
            &&& final(stats).submit_ms_ok == stats.submit_ms_ok + result.elapsed_ns as int
                / 1_000_000
        }
        &&& result.err is Some ==> {
            &&& final(stats).ok == stats.ok
            &&& final(stats).failed == stats.failed + 1
            &&& final(stats).bytes_ok == stats.bytes_ok
            &&& final(stats).submit_ms_ok == stats.submit_ms_ok
        }
    } by {
        a_result_adds_what_it_brought(*stats, *result);
    }
    assert forall|stats: &mut BatchStats|
        {
            &&& #[trigger] call_ensures(BatchStats::record_failure, (stats,), ())
            &&& stats.failed < usize::MAX
        } implies {
        &&& final(stats).failed == stats.failed + 1
        &&& final(stats).ok == stats.ok
        &&& final(stats).retries == stats.retries
        &&& final(stats).bytes_ok == stats.bytes_ok
        &&& final(stats).submit_ms_ok == stats.submit_ms_ok
    } by {
        a_failure_adds_one_failure(*stats);
    }
}

} // verus!
