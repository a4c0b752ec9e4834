//! The listen-port scan.
//!
//! The server first tries the requested port; if that bind fails it scans
//! the high ephemeral range in order and takes the first port that binds.
//! The bind itself is I/O in the surrounding binary; this module fixes which
//! port each attempt tries, and that the scan covers the whole range.

use vstd::prelude::*;

verus! {

/// First port of the ephemeral range the scan falls back to.
pub const EPHEMERAL_FIRST: u16 = 49152;

/// First port past the scanned range: the scan tries `49152..65535`.
pub const EPHEMERAL_END: u16 = 65535;

/// The port the scan tries at attempt `idx`: the preferred port first, then
/// the ephemeral range in order; nothing once the range is exhausted.
pub open spec fn spec_port_candidate(preferred: u16, idx: int) -> Option<u16> {
    if idx == 0 {
        Some(preferred)
    } else if 1 <= idx && idx <= EPHEMERAL_END - EPHEMERAL_FIRST {
        Some((EPHEMERAL_FIRST + idx - 1) as u16)
    } else {
        None
    }
}

/// The port to try at attempt `idx`, or nothing when every candidate was
/// tried and the whole scan has failed.
pub fn port_candidate(preferred: u16, idx: usize) -> (r: Option<u16>)
    ensures
        r == spec_port_candidate(preferred, idx as int),
{
    if idx == 0 {
        Some(preferred)
    } else if idx <= (EPHEMERAL_END - EPHEMERAL_FIRST) as usize {
        Some(EPHEMERAL_FIRST + (idx as u16 - 1))
    } else {
        None
    }
}

/// The scan is exhaustive: every port that is either the preferred one or
/// in the ephemeral range is tried at some attempt, so whenever any such
/// port is free the scan run by the binary reaches it.
pub proof fn lemma_scan_covers(preferred: u16, p: u16)
    requires
        p == preferred || EPHEMERAL_FIRST <= p < EPHEMERAL_END,
    ensures
        exists|idx: int| spec_port_candidate(preferred, idx) == Some(p),
{
    if p == preferred {
        assert(spec_port_candidate(preferred, 0) == Some(p));
    } else {
        let idx = p - EPHEMERAL_FIRST + 1;
        assert(spec_port_candidate(preferred, idx as int) == Some(p));
    }
}

/// The scan is bounded: past the preferred port and the ephemeral range
/// there are no further candidates, so a scan over ports that all refuse to
/// bind ends, and the session aborts rather than retrying forever.
pub proof fn lemma_scan_ends(preferred: u16, idx: int)
    requires
        idx > EPHEMERAL_END - EPHEMERAL_FIRST,
    ensures
        spec_port_candidate(preferred, idx) is None,
{
}

} // verus!
