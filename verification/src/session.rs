//! Lifecycle of the served artifact across one session.
//!
//! In recompile mode the process owns a scratch artifact file: created empty
//! at startup, overwritten in place by the external compiler, and removed
//! during shutdown cleanup — never before. In no-recompile mode the served
//! file is the user's own and is never created or removed by the process.

use vstd::prelude::*;
use crate::shutdown::ShutdownFlag;

verus! {

/// Where the process-owned scratch file stands in its life.
pub enum ScratchLife {
    /// No scratch file belongs to the process (no-recompile mode).
    Unowned,
    /// The scratch file was created and exists on disk.
    Created,
    /// The scratch file was removed during shutdown cleanup.
    Removed,
}

/// One session: the operating mode, the shutdown flag shared by every task,
/// and the scratch file's life.
pub struct Session {
    /// True in recompile mode: the process owns a scratch artifact.
    pub recompile: bool,
    pub shutdown: ShutdownFlag,
    pub scratch: ScratchLife,
}

impl Session {
    /// The session's invariant: the process owns a scratch file exactly in
    /// recompile mode, and a scratch file once created stays on disk until
    /// shutdown was triggered.
    pub open spec fn wf(self) -> bool {
        &&& self.recompile == !(self.scratch is Unowned)
        &&& self.scratch is Removed ==> self.shutdown.triggered
    }

    /// Start a session. In recompile mode the caller has just created the
    /// empty scratch file; in no-recompile mode none is owned.
    pub fn start(recompile: bool) -> (s: Session)
        ensures
            s.wf(),
            s.recompile == recompile,
            !s.shutdown.triggered,
            recompile ==> s.scratch is Created,
            !recompile ==> s.scratch is Unowned,
    {
        Session {
            recompile,
            shutdown: ShutdownFlag::new(),
            scratch: if recompile {
                ScratchLife::Created
            } else {
                ScratchLife::Unowned
            },
        }
    }

    /// Trigger shutdown (interrupt or supervisor failure). The scratch file
    /// is untouched here: cleanup is a separate, later step.
    pub fn trigger_shutdown(&mut self)
        requires
            old(self).wf(),
        ensures
            final(self).wf(),
            final(self).shutdown.triggered,
            final(self).scratch == old(self).scratch,
            final(self).recompile == old(self).recompile,
    {
        self.shutdown.trigger();
    }

    /// Whether cleanup must delete the artifact file from disk: only a
    /// process-owned scratch file still on disk is removed; the user's own
    /// file never is.
    pub fn must_remove_artifact(&self) -> (r: bool)
        ensures
            r == (self.scratch is Created),
    {
        match self.scratch {
            ScratchLife::Created => true,
            _ => false,
        }
    }

    /// Shutdown cleanup: only runs once shutdown was triggered. Afterwards
    /// the process owns no file on disk — a scratch file that existed is
    /// removed — and the user's own file was never touched.
    pub fn cleanup(&mut self)
        requires
            old(self).wf(),
            old(self).shutdown.triggered,
        ensures
            final(self).wf(),
            !(final(self).scratch is Created),
            old(self).recompile ==> final(self).scratch is Removed,
            !old(self).recompile ==> final(self).scratch is Unowned,
            final(self).shutdown.triggered,
            final(self).recompile == old(self).recompile,
    {
        if self.must_remove_artifact() {
            self.scratch = ScratchLife::Removed;
        }
    }
}

/// Once shutdown is triggered, the session accepts no new connection; and
/// after cleanup the owned artifact file is absent from the filesystem —
/// removed in recompile mode, never present in no-recompile mode.
pub proof fn lemma_shutdown_closes_session(s: Session, after: Session)
    requires
        s.wf(),
        s.shutdown.triggered,
        after.wf(),
        !(after.scratch is Created),
        after.recompile == s.recompile,
    ensures
        !s.shutdown.spec_accepts_new_connection(),
        s.recompile ==> after.scratch is Removed,
{
}

} // verus!
