//! The watcher callback: filtering raw filesystem events.
//!
//! The OS-level watcher library invokes a callback on its own thread for
//! every event under the watched directory. The callback must not block; it
//! only decides, from the event and the debounce state, whether to broadcast
//! a change signal. An event counts only if it is a modification and one of
//! its paths ends with the relevant file's path; bursts are then collapsed
//! by the debounce filter.
//!
//! A path is modeled as its components in order, and path suffix matching is
//! component-wise, as the platform's path comparison is.

use vstd::prelude::*;
use crate::debounce::Debouncer;
use crate::debounce::accepts;

verus! {

/// The kind of a raw filesystem event, as far as the watcher cares: only
/// modifications matter.
pub enum FsEventKind {
    Create,
    Modify,
    Remove,
    Access,
    Other,
}

/// One raw filesystem event: its kind and the paths it concerns, each path
/// as its components in order.
pub struct FsEvent {
    pub kind: FsEventKind,
    pub paths: Vec<Vec<String>>,
}

/// The view of a path: its components as sequences of characters.
pub open spec fn path_view(p: Seq<String>) -> Seq<Seq<char>> {
    p.map_values(|c: String| c@)
}

/// Component-wise path suffix: `p` ends with `suffix` when `suffix`'s
/// components are exactly `p`'s last components.
pub open spec fn spec_path_ends_with(p: Seq<Seq<char>>, suffix: Seq<Seq<char>>) -> bool {
    &&& suffix.len() <= p.len()
    &&& forall|i: int| 0 <= i < suffix.len() ==> p[p.len() - suffix.len() + i] == #[trigger] suffix[i]
}

/// Whether `path` ends with `suffix`, component-wise.
pub fn path_ends_with(path: &Vec<String>, suffix: &Vec<String>) -> (r: bool)
    ensures
        r == spec_path_ends_with(path_view(path@), path_view(suffix@)),
{
    if suffix.len() > path.len() {
        return false;
    }
    let off: usize = path.len() - suffix.len();
    let mut i: usize = 0;
    while i < suffix.len()
        invariant
            suffix@.len() <= path@.len(),
            off == path@.len() - suffix@.len(),
            i <= suffix@.len(),
            path@.len() <= usize::MAX,
            forall|j: int|
                0 <= j < i ==> path_view(path@)[off + j] == #[trigger] path_view(suffix@)[j],
        decreases suffix@.len() - i,
    {
        assert(off + i < path@.len());
        if !path[off + i].eq(&suffix[i]) {
            // differing components refute the component-wise suffix
            assert(path_view(path@)[off + i as int] != path_view(suffix@)[i as int]);
            return false;
        }
        i = i + 1;
    }
    true
}

/// Whether a raw event is relevant: it is a modification and one of its
/// paths ends with the relevant file's path.
pub open spec fn spec_event_relevant(e: FsEvent, relevant: Seq<Seq<char>>) -> bool {
    &&& e.kind is Modify
    &&& exists|i: int|
        0 <= i < e.paths@.len() && spec_path_ends_with(path_view(#[trigger] e.paths@[i]@), relevant)
}

/// Whether an event kind is a modification.
pub fn kind_is_modify(k: &FsEventKind) -> (r: bool)
    ensures
        r == (*k is Modify),
{
    match k {
        FsEventKind::Modify => true,
        _ => false,
    }
}

/// Decide whether a raw event concerns the relevant file.
pub fn event_is_relevant(e: &FsEvent, relevant: &Vec<String>) -> (r: bool)
    ensures
        r == spec_event_relevant(*e, path_view(relevant@)),
{
    if !kind_is_modify(&e.kind) {
        return false;
    }
    let mut i: usize = 0;
    while i < e.paths.len()
        invariant
            e.kind is Modify,
            i <= e.paths@.len(),
            forall|j: int|
                0 <= j < i ==> !spec_path_ends_with(
                    path_view(#[trigger] e.paths@[j]@),
                    path_view(relevant@),
                ),
        decreases e.paths@.len() - i,
    {
        if path_ends_with(&e.paths[i], relevant) {
            // the witness for the existential in the relevance spec
            assert(spec_path_ends_with(path_view(e.paths@[i as int]@), path_view(relevant@)));
            return true;
        }
        i = i + 1;
    }
    false
}

/// One step of the watcher callback at time `now_ms`: broadcast a change
/// signal exactly when the event is relevant and survives the debounce
/// filter; only an accepted event moves the debounce state.
pub fn watcher_step(d: &mut Debouncer, e: &FsEvent, relevant: &Vec<String>, now_ms: u64) -> (signal:
    bool)
    requires
        old(d).last_accepted_ms matches Some(l) ==> l <= now_ms,
    ensures
        signal == (spec_event_relevant(*e, path_view(relevant@)) && accepts(
            old(d).last(),
            now_ms as int,
        )),
        signal ==> final(d).last_accepted_ms == Some(now_ms),
        !signal ==> *final(d) == *old(d),
{
    if event_is_relevant(e, relevant) {
        d.observe(now_ms)
    } else {
        false
    }
}

} // verus!
