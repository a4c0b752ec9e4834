//! Process-wide cooperative shutdown: a flag set at most effectively once.
//!
//! Two sources race to trigger it — the OS interrupt handler and the
//! compiler supervisor's failure path. Triggering is idempotent and the
//! state is level-triggered: once set it stays set, and every observer that
//! checks afterwards sees it. The accept loop consults it before taking any
//! new connection.

use vstd::prelude::*;

verus! {

/// Cancellation state: `Running` until triggered, then `ShuttingDown`
/// forever.
pub struct ShutdownFlag {
    pub triggered: bool,
}

impl ShutdownFlag {
    /// Created at startup, not yet triggered.
    pub fn new() -> (f: ShutdownFlag)
        ensures
            !f.triggered,
    {
        ShutdownFlag { triggered: false }
    }

    /// Trigger shutdown. Idempotent: the first caller wins and any repeat is
    /// a no-op, so racing trigger sources are safe.
    pub fn trigger(&mut self)
        ensures
            final(self).triggered,
    {
        self.triggered = true;
    }

    /// Level-triggered observation: true exactly when shutdown was
    /// triggered, and it stays true forever after.
    pub fn is_triggered(&self) -> (r: bool)
        ensures
            r == self.triggered,
    {
        self.triggered
    }

    /// Whether the accept loop may take a new connection: exactly while
    /// shutdown has not been triggered.
    pub open spec fn spec_accepts_new_connection(self) -> bool {
        !self.triggered
    }

    /// The accept loop's decision: a new connection is taken exactly while
    /// shutdown has not been triggered.
    pub fn accept_new_connection(&self) -> (r: bool)
        ensures
            r == self.spec_accepts_new_connection(),
    {
        !self.triggered
    }
}

} // verus!
