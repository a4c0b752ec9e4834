//! Change-notification hub: broadcast wakeup with no buffered history.
//!
//! The protocol is a generation counter. Every `signal` advances the
//! generation; a waiter records the generation it has observed and is woken
//! exactly when the hub's generation has moved past it. A waiter that
//! subscribes after a signal completed records the new generation and so
//! waits for the next one — no history is replayed.
//!
//! The asynchronous runtime primitive that suspends and wakes tasks lives in
//! the surrounding binary; it carries one [`Waiter`] per relay task and
//! drives it through these verified transitions.

use vstd::prelude::*;

verus! {

/// The shared hub: nothing but the current generation.
pub struct Hub {
    pub generation: u64,
}

/// One consumer's view of the hub: the generation it has last observed.
pub struct Waiter {
    pub observed: u64,
}

impl Hub {
    /// A fresh hub, before any signal.
    pub fn new() -> (h: Hub)
        ensures
            h.generation == 0,
    {
        Hub { generation: 0 }
    }

    /// Broadcast a change: advance the generation, which wakes every current
    /// waiter. (The counter is wide enough that the bound is never reached in
    /// practice: at ten signals per second it stands for tens of millions of
    /// years.)
    pub fn signal(&mut self)
        requires
            old(self).generation < u64::MAX,
        ensures
            final(self).generation == old(self).generation + 1,
    {
        self.generation = self.generation + 1;
    }

    /// Begin waiting: record the generation current at this moment. A wait
    /// that begins here returns only once the generation moves further.
    pub fn subscribe(&self) -> (w: Waiter)
        ensures
            w.observed == self.generation,
    {
        Waiter { observed: self.generation }
    }
}

impl Waiter {
    /// Whether a wait by this waiter is over: the hub has signaled since the
    /// waiter last observed it.
    pub open spec fn is_woken(self, hub: Hub) -> bool {
        hub.generation > self.observed
    }

    /// Poll the hub: true exactly when a signal has occurred since this
    /// waiter subscribed or last acknowledged.
    pub fn woken(&self, hub: &Hub) -> (r: bool)
        ensures
            r == self.is_woken(*hub),
    {
        hub.generation > self.observed
    }

    /// Complete a wait: catch up with the hub's generation, so the next wait
    /// blocks until a further signal.
    pub fn acknowledge(&mut self, hub: &Hub)
        requires
            old(self).is_woken(*hub),
        ensures
            final(self).observed == hub.generation,
            !final(self).is_woken(*hub),
    {
        self.observed = hub.generation;
    }
}

/// No buffered history: a wait that begins strictly after a signal completes
/// (so the waiter records the generation that signal produced) is not woken
/// by it; it is woken exactly once a strictly later signal advances the
/// generation again.
pub proof fn lemma_wait_after_signal_blocks(after_signal: Hub, w: Waiter, later: Hub)
    requires
        w.observed == after_signal.generation,
    ensures
        !w.is_woken(after_signal),
        w.is_woken(later) == (later.generation > after_signal.generation),
{
}

/// Fan-out broadcast: a single signal wakes every waiter that was waiting
/// when it fired — every waiter whose observed generation was at most the
/// hub's — none is skipped.
pub proof fn lemma_one_signal_wakes_all(before: Hub, after: Hub, waiters: Seq<Waiter>)
    requires
        before.generation < u64::MAX,
        after.generation == before.generation + 1,
        forall|i: int|
            0 <= i < waiters.len() ==> #[trigger] waiters[i].observed <= before.generation,
    ensures
        forall|i: int| 0 <= i < waiters.len() ==> #[trigger] waiters[i].is_woken(after),
{
}

} // verus!
