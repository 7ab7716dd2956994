//! Pacing: a cap on the rate at which submissions are dispatched.

use vstd::prelude::*;

verus! {

/// When the next submission may be dispatched, in nanoseconds on the caller's clock.
#[derive(Clone, Copy, Debug, PartialEq, Eq, Structural)]
pub struct Pacer {
    pub next_at: u128,
}

/// The later of two instants.
pub open spec fn later(a: int, b: int) -> int {
    if a < b {
        b
    } else {
        a
    }
}

impl Pacer {
    /// A pacer whose first submission is due at `now`.
    pub fn new(now: u128) -> (r: Pacer)
        ensures
            r.next_at == now,
    {
        Pacer { next_at: now }
    }

    /// How long to sleep before the next dispatch; `None` if it is due.
    pub fn wait(&self, now: u128) -> (r: Option<u128>)
        ensures
            r == (if now < self.next_at {
                Some((self.next_at - now) as u128)
            } else {
                None
            }),
    {
        if now < self.next_at {
            Some(self.next_at - now)
        } else {
            None
        }
    }

    /// Notes a dispatch at `now`: the next one is due one interval after it, or after the
    /// instant at which it was due, whichever is later.
    pub fn dispatched(&mut self, now: u128, interval: u128)
        requires
            later(now as int, old(self).next_at as int) + interval <= u128::MAX,
        ensures
            final(self).next_at == later(now as int, old(self).next_at as int) + interval,
            final(self).next_at >= now + interval,
            final(self).next_at >= old(self).next_at + interval,
            final(self).next_at == now + interval || final(self).next_at == old(self).next_at
                + interval,
    {
        let base: u128 = if now < self.next_at {
            self.next_at
        } else {
            now
        };
        self.next_at = base + interval;
    }
}

/// When the next dispatch is due after dispatches at `times`, starting from `due`.
pub open spec fn due_after(due: int, times: Seq<int>, interval: int) -> int
    decreases times.len(),
{
    if times.len() == 0 {
        due
    } else {
        later(times.last(), due_after(due, times.drop_last(), interval)) + interval
    }
}

/// Each dispatch came at its due time or later.
pub open spec fn respects_pacing(due: int, times: Seq<int>, interval: int) -> bool {
    forall|i: int|
        0 <= i < times.len() ==> due_after(due, times.take(i), interval) <= #[trigger] times[i]
}

/// Dispatches that wait until they are due are one interval apart or more.
pub proof fn dispatches_are_spaced(due: int, times: Seq<int>, interval: int, i: int, j: int)
    requires
        0 <= interval,
        respects_pacing(due, times, interval),
        0 <= i <= j < times.len(),
    ensures
        times[i] + (j - i) * interval <= times[j],
    decreases j - i,
{
    if i < j {
        dispatches_are_spaced(due, times, interval, i, j - 1);
        let before = times.take(j);
        assert(before.drop_last() =~= times.take(j - 1));
        assert(before.last() == times[j - 1]);
        assert(due_after(due, before, interval) <= times[j]);
        assert((j - i) * interval == (j - 1 - i) * interval + interval) by (nonlinear_arith);
    } else {
        assert((j - i) * interval == 0) by (nonlinear_arith)
            requires
                i == j,
        ;
    }
}

/// The later of two instants is one of the two and comes before neither.
pub proof fn the_later_instant_bounds_both(a: int, b: int)
    ensures
        later(a, b) >= a,
        later(a, b) >= b,
        later(a, b) == a || later(a, b) == b,
{
}

/// A dispatch that waits as long as the pacer asks comes when it is due or later, and one that is
/// told not to wait is due.
pub proof fn waiting_reaches_the_due_time(pacer: Pacer, now: u128, r: Option<u128>)
    requires
        call_ensures(Pacer::wait, (&pacer, now), r),
    ensures
        r matches Some(pause) ==> pause > 0 && now + pause == pacer.next_at,
        r is None ==> now >= pacer.next_at,
{
}

/// A noted dispatch makes the next one due one interval later: after the dispatch itself where it
/// came late, and after the instant at which it was due where it came early. The first dispatch
/// is due at once.
pub proof fn dispatches_move_the_due_time()
    ensures
        forall|pacer: &mut Pacer, now: u128, interval: u128| #[trigger]
            call_ensures(Pacer::dispatched, (pacer, now, interval), ()) ==> {
                &&& now >= pacer.next_at ==> final(pacer).next_at == now + interval
                &&& now <= pacer.next_at ==> final(pacer).next_at == pacer.next_at + interval
            },
        forall|now: u128, pacer: Pacer| #[trigger]
            call_ensures(Pacer::new, (now,), pacer) ==> pacer.next_at == now,
{
}

} // verus!
