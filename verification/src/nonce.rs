//! The nonce counter of one account.

use vstd::prelude::*;

verus! {

/// The next nonce of an account, as far as this process knows.
#[derive(Clone, Copy, Debug, PartialEq, Eq, Structural)]
pub struct NonceCounter {
    pub next: u32,
}

/// The counter value after one nonce is taken from `next`: one more, or the same at the end of
/// the range.
pub open spec fn after_reserve(next: u32) -> u32 {
    if next < u32::MAX {
        (next + 1) as u32
    } else {
        next
    }
}

/// The counter value after a hint: the larger of the two.
pub open spec fn after_raise(next: u32, hint: u32) -> u32 {
    if hint > next {
        hint
    } else {
        next
    }
}

impl NonceCounter {
    /// A counter that starts at the nonce the chain reports.
    pub fn new(start: u32) -> (r: NonceCounter)
        ensures
            r.next == start,
    {
        NonceCounter { next: start }
    }

    /// Takes the next nonce.
    pub fn reserve(&mut self) -> (nonce: u32)
        ensures
            nonce == old(self).next,
            final(self).next == after_reserve(old(self).next),
            old(self).next < u32::MAX ==> final(self).next == old(self).next + 1,
            old(self).next == u32::MAX ==> final(self).next == u32::MAX,
    {
        let nonce = self.next;
        self.next = self.next.saturating_add(1);
        nonce
    }

    /// Moves the counter up to `hint`; a lower hint is ignored.
    pub fn raise_to(&mut self, hint: u32)
        ensures
            final(self).next == after_raise(old(self).next, hint),
            final(self).next >= old(self).next,
            final(self).next >= hint,
            final(self).next == old(self).next || final(self).next == hint,
    {
        if hint > self.next {
            self.next = hint;
        }
    }
}

/// A use of a counter.
pub ghost enum NonceOp {
    Reserve,
    RaiseTo(u32),
}

/// The counter value after the uses `ops`, in order.
pub open spec fn after_ops(start: u32, ops: Seq<NonceOp>) -> u32
    decreases ops.len(),
{
    if ops.len() == 0 {
        start
    } else {
        let before = after_ops(start, ops.drop_last());
        match ops.last() {
            NonceOp::Reserve => after_reserve(before),
            NonceOp::RaiseTo(hint) => after_raise(before, hint),
        }
    }
}

/// The nonces handed out by the uses `ops`, in order.
pub open spec fn reserved(start: u32, ops: Seq<NonceOp>) -> Seq<u32>
    decreases ops.len(),
{
    if ops.len() == 0 {
        seq![]
    } else {
        let before = reserved(start, ops.drop_last());
        match ops.last() {
            NonceOp::Reserve => before.push(after_ops(start, ops.drop_last())),
            NonceOp::RaiseTo(_) => before,
        }
    }
}

/// A counter never goes down, whatever is done with it.
pub proof fn counter_never_goes_down(start: u32, ops: Seq<NonceOp>)
    ensures
        start <= after_ops(start, ops),
    decreases ops.len(),
{
    if ops.len() > 0 {
        counter_never_goes_down(start, ops.drop_last());
    }
}

/// No nonce but the last of the range is handed out twice: the nonces that a counter hands out
/// grow strictly until they reach the end of the range, whatever hints come between.
pub proof fn reserved_nonces_are_distinct(start: u32, ops: Seq<NonceOp>)
    ensures
        forall|i: int, j: int|
            0 <= i < j < reserved(start, ops).len() ==> (#[trigger] reserved(start, ops)[i])
                < (#[trigger] reserved(start, ops)[j]) || reserved(start, ops)[i] == u32::MAX,
        forall|i: int|
            0 <= i < reserved(start, ops).len() ==> start <= (#[trigger] reserved(start, ops)[i])
                <= after_ops(start, ops),
        forall|i: int|
            0 <= i < reserved(start, ops).len() && (#[trigger] reserved(start, ops)[i])
                < u32::MAX ==> reserved(start, ops)[i] < after_ops(start, ops),
    decreases ops.len(),
{
    if ops.len() > 0 {
        counter_never_goes_down(start, ops.drop_last());
        reserved_nonces_are_distinct(start, ops.drop_last());
        let earlier = reserved(start, ops.drop_last());
        let all = reserved(start, ops);
        assert(forall|i: int| 0 <= i < earlier.len() ==> all[i] == #[trigger] earlier[i]);
        assert(all.len() > earlier.len() ==> all[earlier.len() as int] == after_ops(
            start,
            ops.drop_last(),
        ));
    }
}

/// `count` reservations in a row.
pub open spec fn reservations(count: nat) -> Seq<NonceOp> {
    Seq::new(count, |i: int| NonceOp::Reserve)
}

/// Without hints the nonces handed out are consecutive, up to the end of the range.
pub proof fn reserved_nonces_are_consecutive(start: u32, count: nat)
    requires
        start + count <= u32::MAX + 1,
    ensures
        reserved(start, reservations(count)) == Seq::new(count, |i: int| (start + i) as u32),
        after_ops(start, reservations(count)) == (if start + count <= u32::MAX {
            start + count
        } else {
            u32::MAX as int
        }),
    decreases count,
{
    let ops = reservations(count);
    if count > 0 {
        let fewer = (count - 1) as nat;
        assert(ops.drop_last() =~= reservations(fewer));
        assert(ops.last() is Reserve);
        reserved_nonces_are_consecutive(start, fewer);
    }
    assert(reserved(start, ops) =~= Seq::new(count, |i: int| (start + i) as u32));
}

/// A hint moves the counter up to itself or not at all: the counter is then no lower than before
/// and no lower than the hint, and is one of the two. So the order of hints does not matter, and
/// a hint that comes again changes nothing.
pub proof fn hints_only_raise(next: u32, hint: u32, other: u32)
    ensures
        after_raise(next, hint) >= next,
        after_raise(next, hint) >= hint,
        after_raise(next, hint) == next || after_raise(next, hint) == hint,
        after_raise(after_raise(next, hint), other) == after_raise(after_raise(next, other), hint),
        after_raise(after_raise(next, hint), hint) == after_raise(next, hint),
{
}

/// Taking a nonce hands out the one that was next, and makes the one behind it the next, up to
/// the end of the range. A hint makes the next nonce the larger of the two.
pub proof fn counters_hand_out_and_move_up()
    ensures
        forall|counter: &mut NonceCounter, nonce: u32| #[trigger]
            call_ensures(NonceCounter::reserve, (counter,), nonce) ==> {
                &&& nonce == counter.next
                &&& nonce < u32::MAX ==> final(counter).next == nonce + 1
                &&& nonce == u32::MAX ==> final(counter).next == u32::MAX
            },
        forall|counter: &mut NonceCounter, hint: u32| #[trigger]
            call_ensures(NonceCounter::raise_to, (counter, hint), ()) ==> {
                &&& hint > counter.next ==> final(counter).next == hint
                &&& hint <= counter.next ==> final(counter).next == counter.next
            },
        forall|start: u32, counter: NonceCounter| #[trigger]
            call_ensures(NonceCounter::new, (start,), counter) ==> counter.next == start,
{
}

} // verus!
