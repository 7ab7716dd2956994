//! The life of one submission: sign, submit, and on failure back off and try again.

use vstd::arithmetic::power2::{lemma2_to64, lemma_pow2_unfold, pow2};
use vstd::bits::{lemma_u64_pow2_no_overflow, lemma_u64_shl_is_mul};
use vstd::prelude::*;

use crate::rpc_error::{
    imported_is_exactly_its_words, is_already_imported, is_nonce_error,
    nonce_error_is_exactly_its_words, says_already_imported, says_nonce_error,
};
use crate::text::{lowercase, prefixed};

verus! {

/// How often a failed submission is repeated, and how long the first pause is.
#[derive(Clone, Copy, Debug, PartialEq, Eq, Structural)]
pub struct RetryPolicy {
    pub max_retries: u32,
    pub base_ms: u64,
}

/// What a submission waits for.
#[derive(Clone, Copy, Debug, PartialEq, Eq, Structural)]
pub enum Phase {
    Signing,
    Submitting,
    FetchingNonce,
    Sleeping,
    Done,
}

/// A submission under way.
#[derive(Clone, Copy, Debug, PartialEq, Eq, Structural)]
pub struct Submission {
    pub policy: RetryPolicy,
    pub nonce: u32,
    pub attempts: u32,
    pub phase: Phase,
}

/// What became of the last action.
pub enum Event {
    /// The transaction was signed.
    Signed,
    /// Signing failed, with this message.
    SignFailed(String),
    /// The node took the blob.
    Accepted,
    /// The node rejected the blob, with this message.
    Rejected(String),
    /// The chain reported the nonce of the account.
    NonceFetched(u32),
    /// The chain did not report the nonce of the account.
    NonceUnavailable,
    /// The pause is over.
    Woke,
}

/// What to do next.
pub enum Action {
    /// Sign the transaction with this nonce.
    Sign { nonce: u32 },
    /// Submit the signed transaction with its blob.
    Submit,
    /// Ask the chain for the nonce of the account.
    FetchNonce,
    /// Pause.
    Sleep { ms: u64 },
    /// Stop; `err` is the failure to report, if any.
    Finish { err: Option<String> },
}

/// The contents of an event.
pub ghost enum EventView {
    Signed,
    SignFailed(Seq<char>),
    Accepted,
    Rejected(Seq<char>),
    NonceFetched(u32),
    NonceUnavailable,
    Woke,
}

/// The contents of an action.
pub ghost enum ActionView {
    Sign(u32),
    Submit,
    FetchNonce,
    Sleep(nat),
    Succeed,
    Fail(Seq<char>),
}

impl View for Event {
    type V = EventView;

    open spec fn view(&self) -> EventView {
        match self {
            Event::Signed => EventView::Signed,
            Event::SignFailed(message) => EventView::SignFailed(message@),
            Event::Accepted => EventView::Accepted,
            Event::Rejected(message) => EventView::Rejected(message@),
            Event::NonceFetched(nonce) => EventView::NonceFetched(*nonce),
            Event::NonceUnavailable => EventView::NonceUnavailable,
            Event::Woke => EventView::Woke,
        }
    }
}

impl View for Action {
    type V = ActionView;

    open spec fn view(&self) -> ActionView {
        match self {
            Action::Sign { nonce } => ActionView::Sign(*nonce),
            Action::Submit => ActionView::Submit,
            Action::FetchNonce => ActionView::FetchNonce,
            Action::Sleep { ms } => ActionView::Sleep(*ms as nat),
            Action::Finish { err: None } => ActionView::Succeed,
            Action::Finish { err: Some(message) } => ActionView::Fail(message@),
        }
    }
}

/// How often the pause has doubled after `attempts` attempts.
pub open spec fn doublings(attempts: nat) -> nat {
    if attempts <= 17 {
        (attempts - 1) as nat
    } else {
        16
    }
}

/// The pause after `attempts` attempts, in milliseconds: the base, doubled with each attempt up
/// to sixteen times, and never more than a `u64` holds.
pub open spec fn backoff(base_ms: nat, attempts: nat) -> nat {
    let ms = base_ms * pow2(doublings(attempts));
    if ms <= u64::MAX {
        ms
    } else {
        u64::MAX as nat
    }
}

/// The pause after `attempts` failed attempts, in milliseconds.
pub fn backoff_ms(base_ms: u64, attempts: u32) -> (ms: u64)
    requires
        1 <= attempts,
    ensures
        ms == backoff(base_ms as nat, attempts as nat),
{
    let shift: u32 = if attempts - 1 < 16 {
        attempts - 1
    } else {
        16
    };
    let factor: u64 = 1u64 << shift;
    proof {
        lemma_u64_pow2_no_overflow(shift as nat);
        lemma_u64_shl_is_mul(1, shift as u64);
    }
    match base_ms.checked_mul(factor) {
        Some(ms) => ms,
        None => u64::MAX,
    }
}

/// The message for a transaction that could not be signed.
pub open spec fn sign_error_text(detail: Seq<char>) -> Seq<char> {
    "sign error: "@ + detail
}

impl Submission {
    /// At least one attempt was begun and at most one more than the retries; a submission that
    /// is going to try again has retries left.
    pub open spec fn well_formed(self) -> bool {
        &&& 1 <= self.attempts <= self.policy.max_retries + 1
        &&& self.phase is FetchingNonce || self.phase is Sleeping ==> self.attempts
            <= self.policy.max_retries
    }

    /// The event can follow the action that the submission waits for. A further attempt begins
    /// only while the count of attempts has room for it.
    pub open spec fn expects(self, event: EventView) -> bool {
        match event {
            EventView::Signed | EventView::SignFailed(_) => self.phase is Signing,
            EventView::Accepted | EventView::Rejected(_) => self.phase is Submitting,
            EventView::NonceFetched(_) | EventView::NonceUnavailable => self.phase is FetchingNonce,
            EventView::Woke => self.phase is Sleeping && self.attempts < u32::MAX,
        }
    }

    /// No retry is left.
    pub open spec fn exhausted(self) -> bool {
        self.attempts > self.policy.max_retries
    }

    /// The submission, with another phase.
    pub open spec fn in_phase(self, phase: Phase) -> Submission {
        Submission { phase, ..self }
    }

    /// The submission goes to sleep until the next attempt.
    pub open spec fn pause(self) -> (Submission, ActionView) {
        (
            self.in_phase(Phase::Sleeping),
            ActionView::Sleep(backoff(self.policy.base_ms as nat, self.attempts as nat)),
        )
    }

    /// The submission ends, with this outcome.
    pub open spec fn finish(self, outcome: ActionView) -> (Submission, ActionView) {
        (self.in_phase(Phase::Done), outcome)
    }

    /// The submission after `event`, and what it does next.
    pub open spec fn after(self, event: EventView) -> (Submission, ActionView) {
        match event {
            EventView::Signed => (self.in_phase(Phase::Submitting), ActionView::Submit),
            EventView::SignFailed(detail) => if self.exhausted() {
                self.finish(ActionView::Fail(sign_error_text(detail)))
            } else {
                self.pause()
            },
            EventView::Accepted => self.finish(ActionView::Succeed),
            EventView::Rejected(message) => if says_already_imported(message) {
                self.finish(ActionView::Succeed)
            } else if self.exhausted() {
                self.finish(ActionView::Fail(message))
            } else if says_nonce_error(message) {
                (self.in_phase(Phase::FetchingNonce), ActionView::FetchNonce)
            } else {
                self.pause()
            },
            EventView::NonceFetched(nonce) => (Submission { nonce, ..self }).pause(),
            EventView::NonceUnavailable => self.pause(),
            EventView::Woke => (
                Submission {
                    attempts: (self.attempts + 1) as u32,
                    phase: Phase::Signing,
                    ..self
                },
                ActionView::Sign(self.nonce),
            ),
        }
    }

    /// The submission that starts with `nonce`.
    pub open spec fn first(policy: RetryPolicy, nonce: u32) -> Submission {
        Submission { policy, nonce, attempts: 1, phase: Phase::Signing }
    }

    /// Starts a submission: the first attempt signs with `nonce`.
    pub fn start(policy: RetryPolicy, nonce: u32) -> (r: (Submission, Action))
        ensures
            r.0 == Submission::first(policy, nonce),
            r.0.policy == policy,
            r.0.nonce == nonce,
            r.0.attempts == 1,
            r.0.phase is Signing,
            r.0.well_formed(),
            r.1@ == ActionView::Sign(nonce),
    {
        (
            Submission { policy, nonce, attempts: 1, phase: Phase::Signing },
            Action::Sign { nonce },
        )
    }

    fn go_to_sleep(&mut self) -> (action: Action)
        requires
            old(self).well_formed(),
        ensures
            (*final(self), action@) == old(self).pause(),
    {
        self.phase = Phase::Sleeping;
        Action::Sleep { ms: backoff_ms(self.policy.base_ms, self.attempts) }
    }

    /// Moves the submission on after an event, and says what to do next.
    pub fn step(&mut self, event: Event) -> (action: Action)
        requires
            old(self).well_formed(),
            old(self).expects(event@),
        ensures
            (*final(self), action@) == old(self).after(event@),
            final(self).well_formed(),
    {
        let exhausted = self.attempts > self.policy.max_retries;
        match event {
            Event::Signed => {
                self.phase = Phase::Submitting;
                Action::Submit
            },
            Event::SignFailed(detail) => {
                if exhausted {
                    self.phase = Phase::Done;
                    Action::Finish { err: Some(prefixed("sign error: ", detail.as_str())) }
                } else {
                    self.go_to_sleep()
                }
            },
            Event::Accepted => {
                self.phase = Phase::Done;
                Action::Finish { err: None }
            },
            Event::Rejected(message) => {
                if is_already_imported(message.as_str()) {
                    self.phase = Phase::Done;
                    Action::Finish { err: None }
                } else if exhausted {
                    self.phase = Phase::Done;
                    Action::Finish { err: Some(message) }
                } else if is_nonce_error(message.as_str()) {
                    self.phase = Phase::FetchingNonce;
                    Action::FetchNonce
                } else {
                    self.go_to_sleep()
                }
            },
            Event::NonceFetched(nonce) => {
                self.nonce = nonce;
                self.go_to_sleep()
            },
            Event::NonceUnavailable => self.go_to_sleep(),
            Event::Woke => {
                self.attempts += 1;
                self.phase = Phase::Signing;
                Action::Sign { nonce: self.nonce }
            },
        }
    }
}

/// The submission after `events`, in order.
pub open spec fn after_all(start: Submission, events: Seq<EventView>) -> Submission
    decreases events.len(),
{
    if events.len() == 0 {
        start
    } else {
        after_all(start, events.drop_last()).after(events.last()).0
    }
}

/// Each event can follow what came before it.
pub open spec fn possible(start: Submission, events: Seq<EventView>) -> bool
    decreases events.len(),
{
    events.len() == 0 || {
        &&& possible(start, events.drop_last())
        &&& after_all(start, events.drop_last()).expects(events.last())
    }
}

/// How many pauses came to an end.
pub open spec fn wakeups(events: Seq<EventView>) -> nat
    decreases events.len(),
{
    if events.len() == 0 {
        0
    } else {
        wakeups(events.drop_last()) + (if events.last() is Woke {
            1nat
        } else {
            0nat
        })
    }
}

/// The pauses made, in milliseconds, in order.
pub open spec fn pauses(start: Submission, events: Seq<EventView>) -> Seq<nat>
    decreases events.len(),
{
    if events.len() == 0 {
        seq![]
    } else {
        let before = pauses(start, events.drop_last());
        match after_all(start, events.drop_last()).after(events.last()).1 {
            ActionView::Sleep(ms) => before.push(ms),
            _ => before,
        }
    }
}

/// The nonce that the chain reported last, or else the first one.
pub open spec fn latest_nonce(nonce: u32, events: Seq<EventView>) -> u32
    decreases events.len(),
{
    if events.len() == 0 {
        nonce
    } else {
        match events.last() {
            EventView::NonceFetched(fetched) => fetched,
            _ => latest_nonce(nonce, events.drop_last()),
        }
    }
}

/// The event ends a submission with success: the node takes the blob, or has the transaction
/// already.
pub open spec fn is_success(event: EventView) -> bool {
    match event {
        EventView::Accepted => true,
        EventView::Rejected(message) => says_already_imported(message),
        _ => false,
    }
}

/// An upper bound on the events that a submission still has before it.
pub open spec fn events_left(s: Submission) -> int {
    let rounds = 4 * (s.policy.max_retries + 1 - s.attempts);
    match s.phase {
        Phase::Signing => rounds + 2,
        Phase::Submitting => rounds + 1,
        Phase::FetchingNonce => rounds,
        Phase::Sleeping => rounds - 1,
        Phase::Done => 0,
    }
}

/// Every submission ends: whatever happens, there are at most four events for each retry and
/// two for the last attempt. On the way it stays well formed and keeps its policy, and it begins
/// at most one attempt more than it has retries.
pub proof fn submissions_end(policy: RetryPolicy, nonce: u32, events: Seq<EventView>)
    requires
        possible(Submission::first(policy, nonce), events),
    ensures
        ({
            let last = after_all(Submission::first(policy, nonce), events);
            &&& last.well_formed()
            &&& last.policy == policy
            &&& last.attempts == 1 + wakeups(events)
            &&& last.attempts <= policy.max_retries + 1
            &&& events.len() + events_left(last) <= 4 * policy.max_retries + 2
            &&& events.len() <= 4 * policy.max_retries + 2
        }),
    decreases events.len(),
{
    if events.len() > 0 {
        submissions_end(policy, nonce, events.drop_last());
    }
}

/// A submission that is over stays over: no event can follow.
pub proof fn nothing_follows_the_end(s: Submission, event: EventView)
    requires
        s.phase is Done,
    ensures
        !s.expects(event),
{
}

/// What was possible up to some point was possible before.
proof fn earlier_events_are_possible(start: Submission, events: Seq<EventView>, n: int)
    requires
        possible(start, events),
        0 <= n <= events.len(),
    ensures
        possible(start, events.take(n)),
    decreases events.len(),
{
    if n < events.len() {
        earlier_events_are_possible(start, events.drop_last(), n);
        assert(events.drop_last().take(n) =~= events.take(n));
    } else {
        assert(events.take(n) =~= events);
    }
}

/// In a whole submission the end comes last: once it is over nothing more happens, and so a
/// success can only be its last event.
pub proof fn success_comes_last(policy: RetryPolicy, nonce: u32, events: Seq<EventView>, i: int)
    requires
        possible(Submission::first(policy, nonce), events),
        0 <= i < events.len(),
    ensures
        after_all(Submission::first(policy, nonce), events.take(i + 1)).phase is Done ==> i
            == events.len() - 1,
        is_success(events[i]) ==> i == events.len() - 1,
{
    let start = Submission::first(policy, nonce);
    let upto = events.take(i + 1);
    assert(upto.drop_last() =~= events.take(i));
    assert(upto.last() == events[i]);
    if i < events.len() - 1 {
        let next = events.take(i + 2);
        earlier_events_are_possible(start, events, i + 2);
        assert(next.drop_last() =~= upto);
        assert(after_all(start, upto).expects(next.last()));
    }
}

/// In a whole submission the pauses are those of the backoff, one after each failed attempt, and
/// a submission that is over made one pause less than attempts.
pub proof fn pauses_follow_the_backoff(policy: RetryPolicy, nonce: u32, events: Seq<EventView>)
    requires
        possible(Submission::first(policy, nonce), events),
    ensures
        ({
            let start = Submission::first(policy, nonce);
            let last = after_all(start, events);
            &&& forall|k: int|
                0 <= k < pauses(start, events).len() ==> #[trigger] pauses(start, events)[k]
                    == backoff(policy.base_ms as nat, (k + 1) as nat)
            &&& pauses(start, events).len() == wakeups(events) + (if last.phase is Sleeping {
                1int
            } else {
                0int
            })
            &&& last.phase is Done ==> pauses(start, events).len() == last.attempts - 1
        }),
    decreases events.len(),
{
    submissions_end(policy, nonce, events);
    if events.len() > 0 {
        submissions_end(policy, nonce, events.drop_last());
        pauses_follow_the_backoff(policy, nonce, events.drop_last());
    }
}

/// In a whole submission the nonce is the one that the chain reported last, or else the one it
/// started with.
pub proof fn nonce_is_the_latest(policy: RetryPolicy, nonce: u32, events: Seq<EventView>)
    ensures
        after_all(Submission::first(policy, nonce), events).nonce == latest_nonce(nonce, events),
    decreases events.len(),
{
    if events.len() > 0 {
        nonce_is_the_latest(policy, nonce, events.drop_last());
    }
}

/// A whole submission that is over succeeded exactly if its last event is a success; otherwise
/// it failed, after every retry was used.
pub proof fn submissions_end_with_a_verdict(
    policy: RetryPolicy,
    nonce: u32,
    events: Seq<EventView>,
)
    requires
        possible(Submission::first(policy, nonce), events),
        after_all(Submission::first(policy, nonce), events).phase is Done,
    ensures
        events.len() > 0,
        ({
            let before = after_all(Submission::first(policy, nonce), events.drop_last());
            let verdict = before.after(events.last()).1;
            if is_success(events.last()) {
                verdict is Succeed
            } else {
                &&& verdict is Fail
                &&& before.attempts == policy.max_retries + 1
                &&& wakeups(events) == policy.max_retries
            }
        }),
{
    submissions_end(policy, nonce, events);
    submissions_end(policy, nonce, events.drop_last());
}

/// A failure is reported only after every retry was used.
pub proof fn failure_uses_every_retry(s: Submission, event: EventView)
    requires
        s.well_formed(),
        s.after(event).1 is Fail,
    ensures
        s.attempts == s.policy.max_retries + 1,
{
}

/// A submission succeeds exactly when the node takes the blob or says that it has the
/// transaction already.
pub proof fn success_is_acceptance(s: Submission, event: EventView)
    ensures
        s.after(event).1 is Succeed <==> is_success(event),
{
}

/// Nothing but a nonce that the chain reports changes the nonce. It is asked for after every
/// rejection that points at the nonce, unless the transaction is imported already or no retry is
/// left, and at no other time.
pub proof fn nonce_is_refreshed_on_nonce_errors(s: Submission, event: EventView)
    ensures
        s.after(event).0.nonce == (match event {
            EventView::NonceFetched(nonce) => nonce,
            _ => s.nonce,
        }),
        s.after(event).1 is FetchNonce <==> match event {
            EventView::Rejected(message) => {
                says_nonce_error(message) && !says_already_imported(message) && !s.exhausted()
            },
            _ => false,
        },
{
}

/// A failed attempt is always followed by another, after a pause, as long as a retry is left.
pub proof fn failed_attempts_are_repeated(s: Submission, event: EventView)
    requires
        s.well_formed(),
        s.expects(event),
        !s.exhausted(),
        match event {
            EventView::SignFailed(_) => true,
            EventView::Rejected(message) => !says_already_imported(message),
            EventView::NonceFetched(_) | EventView::NonceUnavailable => true,
            _ => false,
        },
    ensures
        !(s.after(event).0.phase is Done),
        s.after(event).1 is FetchNonce || s.after(event).1 == ActionView::Sleep(
            backoff(s.policy.base_ms as nat, s.attempts as nat),
        ),
{
}

/// The pauses never get shorter; up to the seventeenth attempt each is twice the one before, or
/// the longest that a `u64` holds where it does not hold that, and from then on they stay the
/// same.
pub proof fn pauses_double(base_ms: u64, attempts: nat)
    requires
        1 <= attempts,
    ensures
        backoff(base_ms as nat, 1) == base_ms,
        backoff(base_ms as nat, attempts) <= backoff(base_ms as nat, attempts + 1),
        attempts <= 16 && 2 * backoff(base_ms as nat, attempts) <= u64::MAX ==> backoff(
            base_ms as nat,
            attempts + 1,
        ) == 2 * backoff(base_ms as nat, attempts),
        attempts <= 16 && 2 * backoff(base_ms as nat, attempts) > u64::MAX ==> backoff(
            base_ms as nat,
            attempts + 1,
        ) == u64::MAX,
        17 <= attempts ==> backoff(base_ms as nat, attempts + 1) == backoff(
            base_ms as nat,
            attempts,
        ),
{
    lemma2_to64();
    assert(base_ms * pow2(0) == base_ms) by (nonlinear_arith)
        requires
            pow2(0) == 1,
    ;
    if attempts <= 16 {
        let k = doublings(attempts);
        lemma_pow2_unfold(k + 1);
        assert(base_ms * pow2(k + 1) == 2 * (base_ms * pow2(k))) by (nonlinear_arith)
            requires
                pow2(k + 1) == 2 * pow2(k),
        ;
    }
}

/// The nonce that the chain reported last is that of the last report, and without a report it is
/// the first one.
proof fn latest_nonce_is_the_last_reported(nonce: u32, events: Seq<EventView>)
    ensures
        (forall|i: int| 0 <= i < events.len() ==> !(#[trigger] events[i] is NonceFetched))
            ==> latest_nonce(nonce, events) == nonce,
        forall|i: int|
            0 <= i < events.len() && #[trigger] events[i] is NonceFetched && (forall|j: int|
                i < j < events.len() ==> !(#[trigger] events[j] is NonceFetched)) ==> events[i]
                == EventView::NonceFetched(latest_nonce(nonce, events)),
    decreases events.len(),
{
    if events.len() > 0 {
        let fewer = events.drop_last();
        let last = events.len() - 1;
        latest_nonce_is_the_last_reported(nonce, fewer);
        assert(forall|i: int| 0 <= i < last ==> #[trigger] fewer[i] == events[i]);
        if forall|i: int| 0 <= i < events.len() ==> !(#[trigger] events[i] is NonceFetched) {
            assert(!(events[last] is NonceFetched));
            assert forall|i: int| 0 <= i < fewer.len() implies !(
            #[trigger] fewer[i] is NonceFetched) by {
                assert(!(events[i] is NonceFetched));
            }
        }
        assert forall|i: int|
            0 <= i < events.len() && #[trigger] events[i] is NonceFetched && (forall|j: int|
                i < j < events.len() ==> !(#[trigger] events[j] is NonceFetched)) implies events[i]
            == EventView::NonceFetched(latest_nonce(nonce, events)) by {
            if i < last {
                assert(!(events[last] is NonceFetched));
                assert forall|j: int| i < j < fewer.len() implies !(
                #[trigger] fewer[j] is NonceFetched) by {
                    assert(!(events[j] is NonceFetched));
                }
                assert(fewer[i] is NonceFetched);
            }
        }
    }
}

/// In a whole submission every attempt after a pause, and only that, signs, and it signs with the
/// nonce that the chain reported last. As long as the chain has reported none, it signs with the
/// nonce that the submission started with.
pub proof fn attempts_sign_with_the_latest_nonce(
    policy: RetryPolicy,
    nonce: u32,
    events: Seq<EventView>,
)
    requires
        events.len() > 0,
    ensures
        ({
            let before = after_all(Submission::first(policy, nonce), events.drop_last());
            let action = before.after(events.last()).1;
            &&& action is Sign <==> events.last() is Woke
            &&& action matches ActionView::Sign(signed) ==> {
                &&& signed == latest_nonce(nonce, events)
                &&& (forall|i: int|
                    0 <= i < events.len() ==> !(#[trigger] events[i] is NonceFetched)) ==> signed
                    == nonce
                &&& forall|i: int|
                    0 <= i < events.len() && #[trigger] events[i] is NonceFetched && (forall|
                        j: int,
                    |
                        i < j < events.len() ==> !(#[trigger] events[j] is NonceFetched))
                        ==> events[i] == EventView::NonceFetched(signed)
            }
        }),
{
    nonce_is_the_latest(policy, nonce, events.drop_last());
    latest_nonce_is_the_last_reported(nonce, events);
}

/// In a whole submission the nonce that it carries, and in the end reports, is that of the last
/// report of the chain, and the one it started with as long as there is none.
pub proof fn submissions_carry_the_last_reported_nonce(
    policy: RetryPolicy,
    nonce: u32,
    events: Seq<EventView>,
)
    ensures
        ({
            let last = after_all(Submission::first(policy, nonce), events);
            &&& (forall|i: int|
                0 <= i < events.len() ==> !(#[trigger] events[i] is NonceFetched)) ==> last.nonce
                == nonce
            &&& forall|i: int|
                0 <= i < events.len() && #[trigger] events[i] is NonceFetched && (forall|j: int|
                    i < j < events.len() ==> !(#[trigger] events[j] is NonceFetched)) ==> events[i]
                    == EventView::NonceFetched(last.nonce)
        }),
{
    nonce_is_the_latest(policy, nonce, events);
    latest_nonce_is_the_last_reported(nonce, events);
}

/// In a whole submission every event is answered by what it calls for. A signed transaction is
/// submitted. A blob that the node takes, or a rejection with the words `already imported`, ends
/// the submission with success. Any other failure ends it, with its own message, exactly if all
/// retries are used up. As long as some are left, a rejection that points at the nonce makes it
/// ask for the nonce, and in all other cases it pauses, and signs again after the pause.
pub proof fn every_event_is_answered(policy: RetryPolicy, nonce: u32, events: Seq<EventView>)
    requires
        possible(Submission::first(policy, nonce), events),
        events.len() > 0,
    ensures
        ({
            let before = after_all(Submission::first(policy, nonce), events.drop_last());
            let action = before.after(events.last()).1;
            let attempts = 1 + wakeups(events.drop_last());
            match events.last() {
                EventView::Signed => action is Submit,
                EventView::SignFailed(detail) => if attempts == policy.max_retries + 1 {
                    action == ActionView::Fail("sign error: "@ + detail)
                } else {
                    action is Sleep && attempts <= policy.max_retries
                },
                EventView::Accepted => action is Succeed,
                EventView::Rejected(message) => {
                    let lower = lowercase(message);
                    if exists|before: Seq<char>, behind: Seq<char>|
                        lower == #[trigger] (before + "already imported"@ + behind) {
                        action is Succeed
                    } else if attempts == policy.max_retries + 1 {
                        action == ActionView::Fail(message)
                    } else if {
                        ||| exists|before: Seq<char>, behind: Seq<char>|
                            lower == #[trigger] (before + "stale"@ + behind)
                        ||| exists|before: Seq<char>, behind: Seq<char>|
                            lower == #[trigger] (before + "future"@ + behind)
                        ||| exists|before: Seq<char>, behind: Seq<char>|
                            lower == #[trigger] (before + "invalid transaction"@ + behind)
                        ||| exists|before: Seq<char>, behind: Seq<char>|
                            lower == #[trigger] (before + "bad proof"@ + behind)
                        ||| exists|before: Seq<char>, behind: Seq<char>|
                            lower == #[trigger] (before + "priority is too low"@ + behind)
                    } {
                        action is FetchNonce && attempts <= policy.max_retries
                    } else {
                        action is Sleep && attempts <= policy.max_retries
                    }
                },
                EventView::NonceFetched(_) => action is Sleep,
                EventView::NonceUnavailable => action is Sleep,
                EventView::Woke => action is Sign,
            }
        }),
{
    submissions_end(policy, nonce, events.drop_last());
    if let EventView::Rejected(message) = events.last() {
        imported_is_exactly_its_words(message);
        nonce_error_is_exactly_its_words(message);
    }
}

/// A submission waits for the outcome of what it does: after each action it expects the events
/// that can come of that action, whatever they carry, and no others.
pub proof fn every_outcome_is_expected(s: Submission, event: EventView, next: EventView)
    requires
        s.well_formed(),
        s.expects(event),
    ensures
        ({
            let after = s.after(event).0;
            match s.after(event).1 {
                ActionView::Sign(_) => after.expects(next) <==> next is Signed || next is SignFailed,
                ActionView::Submit => after.expects(next) <==> next is Accepted
                    || next is Rejected,
                ActionView::FetchNonce => after.expects(next) <==> next is NonceFetched
                    || next is NonceUnavailable,
                ActionView::Sleep(_) => after.expects(next) <==> next is Woke && after.attempts
                    < u32::MAX,
                ActionView::Succeed | ActionView::Fail(_) => !after.expects(next),
            }
        }),
{
}

/// What is known of an event or of an action is what it carries, unchanged.
pub proof fn events_and_actions_show_what_they_carry(nonce: u32, ms: u64, message: String)
    ensures
        Event::Signed@ == EventView::Signed,
        Event::SignFailed(message)@ == EventView::SignFailed(message@),
        Event::Accepted@ == EventView::Accepted,
        Event::Rejected(message)@ == EventView::Rejected(message@),
        Event::NonceFetched(nonce)@ == EventView::NonceFetched(nonce),
        Event::NonceUnavailable@ == EventView::NonceUnavailable,
        Event::Woke@ == EventView::Woke,
        (Action::Sign { nonce })@ == ActionView::Sign(nonce),
        Action::Submit@ == ActionView::Submit,
        Action::FetchNonce@ == ActionView::FetchNonce,
        (Action::Sleep { ms })@ == ActionView::Sleep(ms as nat),
        (Action::Finish { err: None })@ == ActionView::Succeed,
        (Action::Finish { err: Some(message) })@ == ActionView::Fail(message@),
{
}

/// The pause after the first attempt is the base. Each further attempt up to the seventeenth
/// doubles it, as far as a `u64` holds that; after that it stays the same.
pub proof fn computed_pauses_double(base_ms: u64, attempts: u32, ms: u64, next_ms: u64)
    requires
        1 <= attempts < u32::MAX,
        call_ensures(backoff_ms, (base_ms, attempts), ms),
        call_ensures(backoff_ms, (base_ms, (attempts + 1) as u32), next_ms),
    ensures
        attempts == 1 ==> ms == base_ms,
        attempts <= 16 && 2 * ms <= u64::MAX ==> next_ms == 2 * ms,
        attempts <= 16 && 2 * ms > u64::MAX ==> next_ms == u64::MAX,
        attempts >= 17 ==> next_ms == ms,
{
    pauses_double(base_ms, attempts as nat);
}

/// A submission starts with its first attempt, which is to be signed with the nonce it was given.
pub proof fn submissions_start_with_the_first_attempt(
    policy: RetryPolicy,
    nonce: u32,
    r: (Submission, Action),
)
    requires
        call_ensures(Submission::start, (policy, nonce), r),
    ensures
        r.0 == Submission::first(policy, nonce),
        r.0.policy == policy,
        r.0.nonce == nonce,
        r.0.attempts == 1,
        forall|event: EventView| #[trigger]
            r.0.expects(event) <==> event is Signed || event is SignFailed,
        r.1 matches Action::Sign { nonce: signed } && signed == nonce,
{
}

/// A step of a submission keeps its policy, counts one more attempt exactly after a pause, and
/// changes the nonce to the one that the chain reports and to no other. It signs exactly after a
/// pause, with the nonce it has. It succeeds exactly where the node takes the blob or has the
/// transaction already; any other failure it reports, in the words it got, exactly when its
/// retries are used up. Before that it asks for the nonce exactly after a rejection that points
/// at it.
pub proof fn steps_are_the_right_ones()
    ensures
        forall|s: &mut Submission, event: Event, action: Action|
            #[trigger] call_ensures(Submission::step, (s, event), action) && s.expects(event@)
                && s.attempts < u32::MAX ==> {
                &&& final(s).policy == s.policy
                &&& final(s).attempts == (if event is Woke {
                    s.attempts + 1
                } else {
                    s.attempts as int
                })
                &&& final(s).nonce == (match event {
                    Event::NonceFetched(nonce) => nonce,
                    _ => s.nonce,
                })
                &&& match action {
                    Action::Sign { nonce } => {
                        &&& event is Woke
                        &&& nonce == s.nonce
                        &&& final(s).phase is Signing
                    },
                    Action::Submit => event is Signed && final(s).phase is Submitting,
                    Action::FetchNonce => {
                        &&& event is Rejected
                        &&& says_nonce_error(event->Rejected_0@)
                        &&& !says_already_imported(event->Rejected_0@)
                        &&& s.attempts <= s.policy.max_retries
                        &&& final(s).phase is FetchingNonce
                    },
                    Action::Sleep { ms } => {
                        &&& event is Rejected ==> !says_nonce_error(event->Rejected_0@)
                        &&& event is Rejected || event is SignFailed ==> s.attempts
                            <= s.policy.max_retries
                        &&& !(event is Woke || event is Signed || event is Accepted)
                        &&& ms == backoff(s.policy.base_ms as nat, s.attempts as nat)
                        &&& final(s).phase is Sleeping
                    },
                    Action::Finish { err: None } => {
                        &&& event is Accepted || (event is Rejected && says_already_imported(
                            event->Rejected_0@,
                        ))
                        &&& final(s).phase is Done
                    },
                    Action::Finish { err: Some(message) } => {
                        &&& s.attempts > s.policy.max_retries
                        &&& match event {
                            Event::SignFailed(detail) => message@ == "sign error: "@ + detail@,
                            Event::Rejected(reason) => message@ == reason@
                                && !says_already_imported(reason@),
                            _ => false,
                        }
                        &&& final(s).phase is Done
                    },
                }
            },
{
}

} // verus!
