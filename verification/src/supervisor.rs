//! Supervision of the external compiler child process.
//!
//! In recompile mode the compiler is spawned once in its own watch sub-mode
//! and rewrites the artifact by itself; the supervisor's only job is to
//! observe how that child ends and to decide what follows. There is no
//! restart policy: any abnormal end is fatal to the whole session.

use vstd::prelude::*;

verus! {

/// How the compiler child ended, as the supervisor observes it.
pub enum ChildEnd {
    /// The child exited; `success` is true exactly when its status reported
    /// success (exit code zero).
    Exited { success: bool },
    /// Waiting on the child failed, so its status is unknown.
    WaitFailed,
}

/// What the supervisor does about an ended child.
pub enum SupervisorAction {
    /// Trigger the process-wide shutdown: the session must not keep serving
    /// a stale artifact with no compiler behind it.
    Shutdown,
    /// Nothing: the child finished cleanly.
    Ignore,
}

/// An end is fatal unless the child exited reporting success.
pub open spec fn child_end_is_fatal(end: ChildEnd) -> bool {
    match end {
        ChildEnd::Exited { success } => !success,
        ChildEnd::WaitFailed => true,
    }
}

/// The supervisor's decision: shut the session down exactly when the child's
/// end was fatal — a non-zero exit or an unobservable one.
pub fn on_child_end(end: &ChildEnd) -> (a: SupervisorAction)
    ensures
        (a is Shutdown) == child_end_is_fatal(*end),
        (a is Ignore) == !child_end_is_fatal(*end),
{
    match end {
        ChildEnd::Exited { success: true } => SupervisorAction::Ignore,
        _ => SupervisorAction::Shutdown,
    }
}

/// The argument list of the compiler invocation in watch mode:
/// `watch <source> <artifact>` followed by the user's extra arguments,
/// forwarded verbatim and in order.
pub fn compiler_watch_args(source: &String, artifact: &String, extra: &Vec<String>) -> (args: Vec<
    String,
>)
    ensures
        args@.len() == 3 + extra@.len(),
        args@[0]@ == "watch"@,
        args@[1]@ == source@,
        args@[2]@ == artifact@,
        forall|i: int| 0 <= i < extra@.len() ==> args@[3 + i]@ == #[trigger] extra@[i]@,
{
    let mut args: Vec<String> = Vec::new();
    args.push("watch".to_owned());
    args.push(source.clone());
    args.push(artifact.clone());
    let mut i: usize = 0;
    while i < extra.len()
        invariant
            args@.len() == 3 + i,
            i <= extra@.len(),
            args@[0]@ == "watch"@,
            args@[1]@ == source@,
            args@[2]@ == artifact@,
            forall|j: int| 0 <= j < i ==> args@[3 + j]@ == #[trigger] extra@[j]@,
        decreases extra@.len() - i,
    {
        args.push(extra[i].clone());
        i = i + 1;
    }
    args
}

/// Which file the watcher observes: the process-owned artifact in recompile
/// mode (the compiler rewrites it on every source change), the user's own
/// file in no-recompile mode.
pub fn watch_target<'a>(no_recompile: bool, source: &'a String, artifact: &'a String) -> (r:
    &'a String)
    ensures
        no_recompile ==> r@ == source@,
        !no_recompile ==> r@ == artifact@,
{
    if no_recompile {
        source
    } else {
        artifact
    }
}

} // verus!
