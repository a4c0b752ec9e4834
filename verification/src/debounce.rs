//! Fixed-window debouncing of file-modification events.
//!
//! The watcher callback sees every raw modification event the operating
//! system reports. Bursts are collapsed: an event is dropped only when less
//! than [`DEBOUNCE_WINDOW_MS`] milliseconds have passed since the last
//! accepted event, so at most ten signals per second can be broadcast. A
//! fresh session has accepted nothing yet, so its first event is always
//! accepted, however early it arrives.

use vstd::prelude::*;

verus! {

/// Least spacing, in milliseconds, that must separate two accepted events.
pub const DEBOUNCE_WINDOW_MS: u64 = 100;

/// Debounce state: the time of the last accepted event on a monotonic
/// millisecond clock, or nothing while no event was accepted yet.
pub struct Debouncer {
    pub last_accepted_ms: Option<u64>,
}

/// Whether an event at `now_ms` is accepted when the last accepted event
/// was at `last_ms`: the first event always is; afterwards an event is
/// dropped exactly when less than the window has elapsed.
pub open spec fn accepts(last_ms: Option<int>, now_ms: int) -> bool {
    match last_ms {
        Option::None => true,
        Option::Some(l) => now_ms - l >= DEBOUNCE_WINDOW_MS,
    }
}

impl Debouncer {
    /// The last accepted time as the spec model sees it.
    pub open spec fn last(self) -> Option<int> {
        match self.last_accepted_ms {
            Option::None => Option::None,
            Option::Some(l) => Option::Some(l as int),
        }
    }

    /// Fresh debounce state: no event accepted yet.
    pub fn new() -> (d: Debouncer)
        ensures
            d.last_accepted_ms is None,
    {
        Debouncer { last_accepted_ms: None }
    }

    /// One raw event at `now_ms`: accept it (and remember its time) or drop
    /// it. The clock is monotonic, so `now_ms` is never before the state.
    pub fn observe(&mut self, now_ms: u64) -> (accepted: bool)
        requires
            old(self).last_accepted_ms matches Some(l) ==> l <= now_ms,
        ensures
            accepted == accepts(old(self).last(), now_ms as int),
            accepted ==> final(self).last_accepted_ms == Some(now_ms),
            !accepted ==> *final(self) == *old(self),
    {
        match self.last_accepted_ms {
            None => {
                self.last_accepted_ms = Some(now_ms);
                true
            },
            Some(l) => {
                if now_ms - l >= DEBOUNCE_WINDOW_MS {
                    self.last_accepted_ms = Some(now_ms);
                    true
                } else {
                    false
                }
            },
        }
    }
}

/// The debounce state left after a run of events at the given times,
/// starting from a last-accepted time of `last0`.
pub open spec fn run_last(last0: Option<int>, times: Seq<int>) -> Option<int>
    decreases times.len(),
{
    if times.len() == 0 {
        last0
    } else {
        let prev = run_last(last0, times.drop_last());
        if accepts(prev, times.last()) {
            Option::Some(times.last())
        } else {
            prev
        }
    }
}

/// How many of the events at the given times are accepted, starting from a
/// last-accepted time of `last0`.
pub open spec fn accept_count(last0: Option<int>, times: Seq<int>) -> nat
    decreases times.len(),
{
    if times.len() == 0 {
        0
    } else {
        accept_count(last0, times.drop_last()) + if accepts(
            run_last(last0, times.drop_last()),
            times.last(),
        ) {
            1nat
        } else {
            0nat
        }
    }
}

/// A burst of raw events that all fall strictly inside one debounce window —
/// every event time lies in `[lo, hi]` with `hi - lo` under the window — is
/// coalesced: at most one of them is accepted, whatever the starting state.
pub proof fn lemma_burst_coalesced(last0: Option<int>, times: Seq<int>, lo: int, hi: int)
    requires
        hi - lo < DEBOUNCE_WINDOW_MS,
        forall|i: int| 0 <= i < times.len() ==> lo <= #[trigger] times[i] <= hi,
    ensures
        accept_count(last0, times) <= 1,
        accept_count(last0, times) == 0 ==> run_last(last0, times) == last0,
        accept_count(last0, times) == 1 ==> (run_last(last0, times) matches Some(r) && lo <= r
            <= hi),
    decreases times.len(),
{
    if times.len() > 0 {
        lemma_burst_coalesced(last0, times.drop_last(), lo, hi);
    }
}

/// The signal rate is bounded: over any stretch of raw events whose times
/// all lie in `[lo, hi]`, each accepted signal after the first consumed a
/// full window, so the window length times the number of signals beyond the
/// first never exceeds the stretch — at most one signal per window, ten per
/// second.
pub proof fn lemma_signal_rate_bounded(last0: Option<int>, times: Seq<int>, lo: int, hi: int)
    requires
        lo <= hi,
        forall|i: int| 0 <= i < times.len() ==> lo <= #[trigger] times[i] <= hi,
    ensures
        DEBOUNCE_WINDOW_MS * (accept_count(last0, times) - 1) <= hi - lo,
        accept_count(last0, times) >= 1 ==> (run_last(last0, times) matches Some(r) && lo <= r
            <= hi && DEBOUNCE_WINDOW_MS * (accept_count(last0, times) - 1) <= r - lo),
    decreases times.len(),
{
    if times.len() > 0 {
        lemma_signal_rate_bounded(last0, times.drop_last(), lo, hi);
    }
}

/// Events spaced at least one window apart each produce their own signal:
/// when the first event of the run is itself accepted and every following
/// event comes a full window or more after its predecessor, every event is
/// accepted.
pub proof fn lemma_spaced_events_all_signal(last0: Option<int>, times: Seq<int>)
    requires
        times.len() > 0 ==> accepts(last0, times[0]),
        forall|i: int|
            0 <= i && i + 1 < times.len() ==> times[i + 1] - #[trigger] times[i]
                >= DEBOUNCE_WINDOW_MS,
    ensures
        accept_count(last0, times) == times.len(),
        times.len() > 0 ==> run_last(last0, times) == Option::Some(times.last()),
    decreases times.len(),
{
    if times.len() > 0 {
        lemma_spaced_events_all_signal(last0, times.drop_last());
        if times.len() >= 2 {
            assert(times[times.len() - 1] - times[times.len() - 2] >= DEBOUNCE_WINDOW_MS);
        }
    }
}

/// In a fresh session, two events at least one window apart each produce
/// their own signal, with no condition on the first: nothing was accepted
/// yet, so the session's first event always is.
pub proof fn lemma_two_spaced_events_two_signals(t1: int, t2: int)
    requires
        t2 - t1 >= DEBOUNCE_WINDOW_MS,
    ensures
        accept_count(Option::None, seq![t1, t2]) == 2,
{
    let times = seq![t1, t2];
    assert(times.drop_last() =~= seq![t1]);
    assert(seq![t1].drop_last() =~= Seq::<int>::empty());
    lemma_spaced_events_all_signal(Option::None, times);
}

} // verus!
