//! The single-account program: batch after batch from one development account.

use vstd::prelude::*;

use crate::blob::{app_id_for, PreparedBlob};
use crate::nonce::{
    after_ops, after_raise, after_reserve, counter_never_goes_down, reserved,
    reserved_nonces_are_distinct, NonceCounter, NonceOp,
};
use crate::retry::Submission;
use crate::stats::{after_outcomes, small_sum_usize, BatchStats, Outcome, SubmitResult};

verus! {

/// What a submission is dispatched with.
#[derive(Clone, Copy, Debug, PartialEq, Eq, Structural)]
pub struct Dispatch {
    pub nonce: u32,
    pub app_id: u32,
}

/// The state of the program.
#[derive(Clone, Copy, Debug)]
pub struct Spammer {
    pub nonces: NonceCounter,
    pub epoch: Option<[u8; 32]>,
    pub dispatched: usize,
    pub stats: BatchStats,
}

fn same_bytes(a: &[u8; 32], b: &[u8; 32]) -> (r: bool)
    ensures
        r == (a@ == b@),
{
    let mut i: usize = 0;
    while i < 32
        invariant
            i <= 32,
            forall|j: int| 0 <= j < i ==> a@[j] == b@[j],
        decreases 32 - i,
    {
        if a[i] != b[i] {
            assert(a@[i as int] != b@[i as int]);
            return false;
        }
        i += 1;
    }
    assert(a@ =~= b@);
    true
}

/// The fetched epoch randomness differs from that of the batch before, or there was none.
pub open spec fn is_new_epoch(before: Option<[u8; 32]>, fetched: [u8; 32]) -> bool {
    match before {
        None => true,
        Some(randomness) => randomness@ != fetched@,
    }
}

/// Something that happens to the program.
pub ghost enum RunEvent {
    /// A batch begins, under this epoch randomness.
    Begin([u8; 32]),
    /// The prepared blob with this index is dispatched.
    Dispatch(usize),
    /// A submission comes to an end.
    Result(SubmitResult),
    /// A blob could not be prepared, or a task was lost.
    Failure,
    /// The chain reports the nonce after a batch with failures.
    ChainNonce(u32),
}

impl Spammer {
    /// The program before its first batch.
    pub open spec fn fresh(start_nonce: u32) -> Spammer {
        Spammer {
            nonces: NonceCounter { next: start_nonce },
            epoch: None,
            dispatched: 0,
            stats: BatchStats::empty(),
        }
    }

    /// The program after an event.
    pub open spec fn after(self, event: RunEvent) -> Spammer {
        match event {
            RunEvent::Begin(randomness) => Spammer {
                epoch: Some(randomness),
                dispatched: 0,
                stats: BatchStats::empty(),
                ..self
            },
            RunEvent::Dispatch(_) => Spammer {
                nonces: NonceCounter { next: after_reserve(self.nonces.next) },
                dispatched: (self.dispatched + 1) as usize,
                ..self
            },
            RunEvent::Result(result) => Spammer {
                stats: self.stats.after_result(result),
                ..self
            },
            RunEvent::Failure => Spammer { stats: self.stats.after_failure(), ..self },
            RunEvent::ChainNonce(nonce) => Spammer {
                nonces: NonceCounter { next: after_raise(self.nonces.next, nonce) },
                ..self
            },
        }
    }

    /// The program before its first batch, with the nonce that the chain reports.
    pub fn new(start_nonce: u32) -> (r: Spammer)
        ensures
            r == Spammer::fresh(start_nonce),
    {
        Spammer {
            nonces: NonceCounter::new(start_nonce),
            epoch: None,
            dispatched: 0,
            stats: BatchStats::new(),
        }
    }

    /// Begins a batch under the fetched epoch randomness: the counts start over, the nonces go
    /// on. Says whether the epoch is new.
    pub fn begin_batch(&mut self, randomness: [u8; 32]) -> (new_epoch: bool)
        ensures
            new_epoch == is_new_epoch(old(self).epoch, randomness),
            *final(self) == old(self).after(RunEvent::Begin(randomness)),
    {
        let new_epoch = match &self.epoch {
            None => true,
            Some(before) => !same_bytes(before, &randomness),
        };
        self.epoch = Some(randomness);
        self.dispatched = 0;
        self.stats = BatchStats::new();
        new_epoch
    }

    /// Dispatches the prepared blob with index `index`: it gets the next nonce.
    pub fn dispatch(&mut self, index: usize) -> (r: Dispatch)
        requires
            old(self).dispatched < usize::MAX,
        ensures
            r.nonce == old(self).nonces.next,
            r.app_id == index % 5,
            *final(self) == old(self).after(RunEvent::Dispatch(index)),
    {
        let nonce = self.nonces.reserve();
        self.dispatched += 1;
        Dispatch { nonce, app_id: app_id_for(index) }
    }

    /// Counts a blob that could not be prepared, or a task that was lost.
    pub fn record_failure(&mut self)
        ensures
            *final(self) == old(self).after(RunEvent::Failure),
    {
        self.stats.record_failure();
    }

    /// Counts the result of a submission.
    pub fn record(&mut self, result: &SubmitResult)
        ensures
            *final(self) == old(self).after(RunEvent::Result(*result)),
    {
        self.stats.record(result);
    }

    /// Whether the batch had failures, after which the chain is asked for the nonce.
    pub fn needs_chain_nonce(&self) -> (r: bool)
        ensures
            r == (self.stats.failed > 0),
    {
        self.stats.failed > 0
    }

    /// Takes note of the nonce that the chain reports after a batch with failures; a nonce that
    /// is not ahead of the own count is ignored.
    pub fn adopt_chain_nonce(&mut self, chain_nonce: u32)
        ensures
            *final(self) == old(self).after(RunEvent::ChainNonce(chain_nonce)),
    {
        self.nonces.raise_to(chain_nonce);
    }
}

/// The result of a submission that came to an end.
pub fn submit_result(
    prepared: &PreparedBlob,
    submission: &Submission,
    elapsed_ns: u128,
    err: Option<String>,
) -> (r: SubmitResult)
    ensures
        r.index == prepared.index,
        r.nonce == submission.nonce,
        r.blob_len == prepared.blob@.len(),
        r.attempts == submission.attempts,
        r.elapsed_ns == elapsed_ns,
        r.err == err,
{
    SubmitResult {
        index: prepared.index,
        nonce: submission.nonce,
        blob_len: prepared.blob.len(),
        attempts: submission.attempts,
        elapsed_ns,
        err,
    }
}

/// The program after `events`, in order.
pub open spec fn after_run(start: Spammer, events: Seq<RunEvent>) -> Spammer
    decreases events.len(),
{
    if events.len() == 0 {
        start
    } else {
        after_run(start, events.drop_last()).after(events.last())
    }
}

/// The nonces that submissions were dispatched with, in order.
pub open spec fn dispatched_nonces(start: Spammer, events: Seq<RunEvent>) -> Seq<u32>
    decreases events.len(),
{
    if events.len() == 0 {
        seq![]
    } else {
        let before = dispatched_nonces(start, events.drop_last());
        if events.last() is Dispatch {
            before.push(after_run(start, events.drop_last()).nonces.next)
        } else {
            before
        }
    }
}

/// The uses that events make of the nonce counter.
pub open spec fn nonce_ops(events: Seq<RunEvent>) -> Seq<NonceOp>
    decreases events.len(),
{
    if events.len() == 0 {
        seq![]
    } else {
        let before = nonce_ops(events.drop_last());
        match events.last() {
            RunEvent::Dispatch(_) => before.push(NonceOp::Reserve),
            RunEvent::ChainNonce(nonce) => before.push(NonceOp::RaiseTo(nonce)),
            _ => before,
        }
    }
}

proof fn run_uses_the_counter(start: Spammer, events: Seq<RunEvent>)
    ensures
        after_run(start, events).nonces.next == after_ops(start.nonces.next, nonce_ops(events)),
        dispatched_nonces(start, events) == reserved(start.nonces.next, nonce_ops(events)),
    decreases events.len(),
{
    if events.len() > 0 {
        run_uses_the_counter(start, events.drop_last());
        let before = nonce_ops(events.drop_last());
        assert(before.push(NonceOp::Reserve).drop_last() =~= before);
        if let RunEvent::ChainNonce(nonce) = events.last() {
            assert(before.push(NonceOp::RaiseTo(nonce)).drop_last() =~= before);
        }
    }
}

/// Over a whole run, whatever happens in it, the next nonce never goes down, and no two
/// submissions are dispatched with the same nonce, unless it is the last of the range.
pub proof fn dispatched_nonces_are_distinct(start: Spammer, events: Seq<RunEvent>)
    ensures
        start.nonces.next <= after_run(start, events).nonces.next,
        forall|i: int, j: int|
            0 <= i < j < dispatched_nonces(start, events).len() ==> (
            #[trigger] dispatched_nonces(start, events)[i]) < (#[trigger] dispatched_nonces(
                start,
                events,
            )[j]) || dispatched_nonces(start, events)[i] == u32::MAX,
        forall|i: int|
            0 <= i < dispatched_nonces(start, events).len() ==> start.nonces.next <= (
            #[trigger] dispatched_nonces(start, events)[i]) <= after_run(start, events).nonces.next,
{
    run_uses_the_counter(start, events);
    counter_never_goes_down(start.nonces.next, nonce_ops(events));
    reserved_nonces_are_distinct(start.nonces.next, nonce_ops(events));
}

/// The number of dispatches among the events.
pub open spec fn dispatches(events: Seq<RunEvent>) -> nat {
    events.filter(|e: RunEvent| e is Dispatch).len()
}

/// The number of results among the events.
pub open spec fn results(events: Seq<RunEvent>) -> nat {
    events.filter(|e: RunEvent| e is Result).len()
}

/// The number of failures without a result among the events.
pub open spec fn failures(events: Seq<RunEvent>) -> nat {
    events.filter(|e: RunEvent| e is Failure).len()
}

/// Within a batch every dispatch is counted, and every result and every failure is counted once,
/// as a success or as a failure. So once each dispatched submission has come to an end, the
/// successes and the failures are as many as the dispatches and the other failures together.
pub proof fn batch_counts_add_up(start: Spammer, randomness: [u8; 32], events: Seq<RunEvent>)
    requires
        dispatches(events) <= usize::MAX,
        results(events) + failures(events) <= usize::MAX,
        forall|i: int| 0 <= i < events.len() ==> !(#[trigger] events[i] is Begin),
    ensures
        ({
            let end = after_run(start.after(RunEvent::Begin(randomness)), events);
            &&& end.dispatched == dispatches(events)
            &&& end.stats.ok + end.stats.failed == results(events) + failures(events)
            &&& results(events) == dispatches(events) ==> end.stats.ok + end.stats.failed
                == end.dispatched + failures(events)
        }),
    decreases events.len(),
{
    reveal(Seq::filter);
    if events.len() > 0 {
        let begun = start.after(RunEvent::Begin(randomness));
        let fewer = events.drop_last();
        assert forall|i: int| 0 <= i < fewer.len() implies !(#[trigger] fewer[i] is Begin) by {
            assert(fewer[i] == events[i]);
        }
        batch_counts_add_up(start, randomness, fewer);
        let before = after_run(begun, fewer);
        assert(!(events[events.len() - 1] is Begin));
        match events.last() {
            RunEvent::Result(result) => {
                if result.err is None {
                    small_sum_usize(before.stats.ok, 1);
                } else {
                    small_sum_usize(before.stats.failed, 1);
                }
            },
            RunEvent::Failure => {
                small_sum_usize(before.stats.failed, 1);
            },
            _ => {},
        }
    }
}

/// What the events have to be counted: the results and the failures, in order.
pub open spec fn outcomes_among(events: Seq<RunEvent>) -> Seq<Outcome>
    decreases events.len(),
{
    if events.len() == 0 {
        seq![]
    } else {
        let before = outcomes_among(events.drop_last());
        match events.last() {
            RunEvent::Result(result) => before.push(Outcome::Result(result)),
            RunEvent::Failure => before.push(Outcome::Failure),
            _ => before,
        }
    }
}

/// Within a batch the counts are those of its results and failures alone, starting from none:
/// neither what was counted before the batch nor a dispatch nor a nonce has a part in them.
pub proof fn batches_count_their_own_outcomes(
    start: Spammer,
    randomness: [u8; 32],
    events: Seq<RunEvent>,
)
    requires
        forall|i: int| 0 <= i < events.len() ==> !(#[trigger] events[i] is Begin),
    ensures
        after_run(start.after(RunEvent::Begin(randomness)), events).stats == after_outcomes(
            outcomes_among(events),
        ),
    decreases events.len(),
{
    if events.len() > 0 {
        let fewer = events.drop_last();
        assert forall|i: int| 0 <= i < fewer.len() implies !(#[trigger] fewer[i] is Begin) by {
            assert(fewer[i] == events[i]);
        }
        batches_count_their_own_outcomes(start, randomness, fewer);
        let before = outcomes_among(fewer);
        assert(!(events[events.len() - 1] is Begin));
        match events.last() {
            RunEvent::Result(result) => {
                assert(before.push(Outcome::Result(result)).drop_last() =~= before);
            },
            RunEvent::Failure => {
                assert(before.push(Outcome::Failure).drop_last() =~= before);
            },
            _ => {},
        }
    }
}

/// As long as the chain reports no nonce, the submissions of a run are dispatched with
/// consecutive nonces from the one it started with, across all batches, and the next nonce is
/// the one behind them.
pub proof fn dispatched_nonces_are_consecutive(start: Spammer, events: Seq<RunEvent>)
    requires
        forall|i: int| 0 <= i < events.len() ==> !(#[trigger] events[i] is ChainNonce),
        start.nonces.next + dispatches(events) <= u32::MAX,
    ensures
        dispatched_nonces(start, events).len() == dispatches(events),
        forall|k: int|
            0 <= k < dispatched_nonces(start, events).len() ==> #[trigger] dispatched_nonces(
                start,
                events,
            )[k] == start.nonces.next + k,
        after_run(start, events).nonces.next == start.nonces.next + dispatches(events),
    decreases events.len(),
{
    reveal(Seq::filter);
    if events.len() > 0 {
        let fewer = events.drop_last();
        assert forall|i: int| 0 <= i < fewer.len() implies !(
        #[trigger] fewer[i] is ChainNonce) by {
            assert(fewer[i] == events[i]);
        }
        assert(!(events[events.len() - 1] is ChainNonce));
        dispatched_nonces_are_consecutive(start, fewer);
    }
}

/// The nonce that the chain reports is taken if it is ahead of the own count, and otherwise
/// ignored; nothing else changes.
pub proof fn chain_nonces_only_move_ahead(s: Spammer, nonce: u32)
    ensures
        ({
            let after = s.after(RunEvent::ChainNonce(nonce));
            &&& nonce > s.nonces.next ==> after.nonces.next == nonce
            &&& nonce <= s.nonces.next ==> after.nonces.next == s.nonces.next
            &&& after.epoch == s.epoch
            &&& after.dispatched == s.dispatched
            &&& after.stats == s.stats
        }),
{
}

/// The epoch randomness that the program goes by is that of the last batch that began.
pub proof fn the_epoch_is_that_of_the_last_batch(start: Spammer, events: Seq<RunEvent>)
    ensures
        (forall|i: int| 0 <= i < events.len() ==> !(#[trigger] events[i] is Begin)) ==> after_run(
            start,
            events,
        ).epoch == start.epoch,
        forall|i: int|
            0 <= i < events.len() && #[trigger] events[i] is Begin && (forall|j: int|
                i < j < events.len() ==> !(#[trigger] events[j] is Begin)) ==> after_run(
                start,
                events,
            ).epoch == Some(events[i]->Begin_0),
    decreases events.len(),
{
    if events.len() > 0 {
        let fewer = events.drop_last();
        let last = events.len() - 1;
        the_epoch_is_that_of_the_last_batch(start, fewer);
        assert(forall|i: int| 0 <= i < last ==> #[trigger] fewer[i] == events[i]);
        if forall|i: int| 0 <= i < events.len() ==> !(#[trigger] events[i] is Begin) {
            assert(!(events[last] is Begin));
            assert forall|i: int| 0 <= i < fewer.len() implies !(#[trigger] fewer[i] is Begin) by {
                assert(!(events[i] is Begin));
            }
        }
        assert forall|i: int|
            0 <= i < events.len() && #[trigger] events[i] is Begin && (forall|j: int|
                i < j < events.len() ==> !(#[trigger] events[j] is Begin)) implies after_run(
            start,
            events,
        ).epoch == Some(events[i]->Begin_0) by {
            if i < last {
                assert(!(events[last] is Begin));
                assert forall|j: int| i < j < fewer.len() implies !(
                #[trigger] fewer[j] is Begin) by {
                    assert(!(events[j] is Begin));
                }
                assert(fewer[i] is Begin);
            }
        }
    }
}

/// An epoch is new exactly if there was none before, or one of the 32 bytes of its randomness is
/// another than before.
pub proof fn new_epochs_differ_in_a_byte(before: Option<[u8; 32]>, fetched: [u8; 32])
    ensures
        before is None ==> is_new_epoch(before, fetched),
        before matches Some(randomness) ==> (is_new_epoch(before, fetched) <==> exists|i: int|
            0 <= i < 32 && #[trigger] randomness@[i] != fetched@[i]),
{
    if let Some(randomness) = before {
        if forall|i: int| 0 <= i < 32 ==> #[trigger] randomness@[i] == fetched@[i] {
            assert(randomness@ =~= fetched@);
        }
    }
}

/// A run starts with the nonce that the chain reports, before any epoch, with nothing counted.
pub proof fn runs_start_with_nothing_counted(start_nonce: u32, s: Spammer)
    requires
        call_ensures(Spammer::new, (start_nonce,), s),
    ensures
        s.nonces.next == start_nonce,
        s.epoch is None,
        s.dispatched == 0,
        s.stats.ok == 0,
        s.stats.failed == 0,
        s.stats.retries == 0,
        s.stats.bytes_ok == 0,
        s.stats.submit_ms_ok == 0,
{
}

/// The chain is asked for the nonce exactly if a submission of the batch failed, or a blob could
/// not be prepared or was lost.
pub proof fn failures_make_the_chain_asked(
    start: Spammer,
    randomness: [u8; 32],
    events: Seq<RunEvent>,
    asked: bool,
)
    requires
        forall|i: int| 0 <= i < events.len() ==> !(#[trigger] events[i] is Begin),
        results(events) + failures(events) <= usize::MAX,
        call_ensures(
            Spammer::needs_chain_nonce,
            (&after_run(start.after(RunEvent::Begin(randomness)), events),),
            asked,
        ),
    ensures
        asked <==> exists|i: int|
            0 <= i < events.len() && (#[trigger] events[i] is Failure || (events[i] is Result
                && events[i]->Result_0.err is Some)),
{
    failed_counts_the_failures(start, randomness, events);
}

/// The failures of a batch are counted exactly if there are any.
proof fn failed_counts_the_failures(
    start: Spammer,
    randomness: [u8; 32],
    events: Seq<RunEvent>,
)
    requires
        forall|i: int| 0 <= i < events.len() ==> !(#[trigger] events[i] is Begin),
        results(events) + failures(events) <= usize::MAX,
    ensures
        ({
            let end = after_run(start.after(RunEvent::Begin(randomness)), events);
            &&& end.stats.failed <= results(events) + failures(events)
            &&& end.stats.failed > 0 <==> exists|i: int|
                0 <= i < events.len() && (#[trigger] events[i] is Failure || (events[i] is Result
                    && events[i]->Result_0.err is Some))
        }),
    decreases events.len(),
{
    reveal(Seq::filter);
    if events.len() > 0 {
        let fewer = events.drop_last();
        let last = events.len() - 1;
        assert(forall|i: int| 0 <= i < last ==> #[trigger] fewer[i] == events[i]);
        assert forall|i: int| 0 <= i < fewer.len() implies !(#[trigger] fewer[i] is Begin) by {
            assert(!(events[i] is Begin));
        }
        assert(!(events[last] is Begin));
        failed_counts_the_failures(start, randomness, fewer);
        let before = after_run(start.after(RunEvent::Begin(randomness)), fewer);
        match events.last() {
            RunEvent::Result(result) => {
                if result.err is Some {
                    small_sum_usize(before.stats.failed, 1);
                }
            },
            RunEvent::Failure => {
                small_sum_usize(before.stats.failed, 1);
            },
            _ => {},
        }
        if exists|i: int|
            0 <= i < fewer.len() && (#[trigger] fewer[i] is Failure || (fewer[i] is Result
                && fewer[i]->Result_0.err is Some)) {
            let i = choose|i: int|
                0 <= i < fewer.len() && (#[trigger] fewer[i] is Failure || (fewer[i] is Result
                    && fewer[i]->Result_0.err is Some));
            assert(fewer[i] == events[i]);
            assert(events[i] is Failure || events[i] is Result);
        }
        if exists|i: int|
            0 <= i < events.len() && (#[trigger] events[i] is Failure || (events[i] is Result
                && events[i]->Result_0.err is Some)) {
            let i = choose|i: int|
                0 <= i < events.len() && (#[trigger] events[i] is Failure || (events[i] is Result
                    && events[i]->Result_0.err is Some));
            if i < last {
                assert(fewer[i] == events[i]);
            }
        }
    }
}

/// The result of a submission says of the blob and of the submission what they say themselves.
pub proof fn results_say_what_happened(
    prepared: &PreparedBlob,
    submission: &Submission,
    elapsed_ns: u128,
    err: Option<String>,
    r: SubmitResult,
)
    requires
        call_ensures(submit_result, (prepared, submission, elapsed_ns, err), r),
    ensures
        r.index == prepared.index,
        r.blob_len == prepared.blob@.len(),
        r.nonce == submission.nonce,
        r.attempts == submission.attempts,
        r.elapsed_ns == elapsed_ns,
        r.err == err,
{
}

/// A batch begins with its counts at zero and goes on with the nonces; its epoch is new unless
/// the one before had the same randomness.
pub proof fn batches_begin_afresh()
    ensures
        forall|s: &mut Spammer, randomness: [u8; 32], new_epoch: bool| #[trigger]
            call_ensures(Spammer::begin_batch, (s, randomness), new_epoch) ==> {
                &&& new_epoch <==> s.epoch is None || s.epoch->0@ != randomness@
                &&& final(s).epoch == Some(randomness)
                &&& final(s).nonces.next == s.nonces.next
                &&& final(s).dispatched == 0
                &&& final(s).stats.ok == 0 && final(s).stats.failed == 0
                &&& final(s).stats.retries == 0
                &&& final(s).stats.bytes_ok == 0 && final(s).stats.submit_ms_ok == 0
            },
{
}

/// A dispatch gets the next nonce and the application id of its index, and counts as one; it
/// changes nothing of what was counted of results.
pub proof fn dispatches_take_the_next_nonce()
    ensures
        forall|s: &mut Spammer, index: usize, r: Dispatch|
            #[trigger] call_ensures(Spammer::dispatch, (s, index), r) && s.dispatched
                < usize::MAX ==> {
                &&& r.nonce == s.nonces.next
                &&& r.app_id < 5
                &&& index >= r.app_id && (index - r.app_id) % 5 == 0
                &&& s.nonces.next < u32::MAX ==> final(s).nonces.next == r.nonce + 1
                &&& s.nonces.next == u32::MAX ==> final(s).nonces.next == u32::MAX
                &&& final(s).dispatched == s.dispatched + 1
                &&& final(s).epoch == s.epoch
                &&& final(s).stats == s.stats
            },
{
}

/// Recording a result or a failure changes the counts as counting it does, and nothing else; the
/// nonce that the chain reports changes the next nonce at most.
pub proof fn recording_keeps_the_rest()
    ensures
        forall|s: &mut Spammer, result: &SubmitResult| #[trigger]
            call_ensures(Spammer::record, (s, result), ()) ==> {
                &&& final(s).stats == s.stats.after_result(*result)
                &&& final(s).nonces == s.nonces
                &&& final(s).epoch == s.epoch
                &&& final(s).dispatched == s.dispatched
            },
        forall|s: &mut Spammer| #[trigger]
            call_ensures(Spammer::record_failure, (s,), ()) ==> {
                &&& final(s).stats == s.stats.after_failure()
                &&& final(s).nonces == s.nonces
                &&& final(s).epoch == s.epoch
                &&& final(s).dispatched == s.dispatched
            },
        forall|s: &mut Spammer, nonce: u32| #[trigger]
            call_ensures(Spammer::adopt_chain_nonce, (s, nonce), ()) ==> {
                &&& nonce > s.nonces.next ==> final(s).nonces.next == nonce
                &&& nonce <= s.nonces.next ==> final(s).nonces.next == s.nonces.next
                &&& final(s).stats == s.stats
                &&& final(s).epoch == s.epoch
                &&& final(s).dispatched == s.dispatched
            },
{
}

} // verus!
