//! Decisions behind the HTTP surface.
//!
//! The routing, the response plumbing and the WebSocket upgrade are I/O in
//! the surrounding binary. This module fixes the decisions those handlers
//! make: which file's bytes the artifact route serves, what body a failed
//! read yields, and the literal frame pushed to a browser on each change.

use vstd::prelude::*;

verus! {

/// Which file the artifact route serves: the user's own file in
/// no-recompile mode, the scratch artifact otherwise — the same file the
/// watcher observes.
pub fn serve_source<'a>(no_recompile: bool, filename: &'a String, scratch: &'a String) -> (r:
    &'a String)
    ensures
        no_recompile ==> r@ == filename@,
        !no_recompile ==> r@ == scratch@,
{
    if no_recompile {
        filename
    } else {
        scratch
    }
}

/// The artifact response body: the bytes read, or an empty body when the
/// read failed — a transiently unreadable artifact never fails the request.
pub fn artifact_body(read: Option<Vec<u8>>) -> (body: Vec<u8>)
    ensures
        read is Some ==> body@ == read.unwrap()@,
        read is None ==> body@ == Seq::<u8>::empty(),
{
    match read {
        Some(data) => data,
        None => Vec::new(),
    }
}

/// The one frame a relay pushes to its browser client on every change
/// signal.
pub fn refresh_frame() -> (r: &'static str)
    ensures
        r@ == "refresh"@,
{
    "refresh"
}

} // verus!
