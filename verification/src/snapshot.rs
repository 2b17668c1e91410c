//! The host-wide memory snapshot shown on every display refresh. The
//! host query itself happens outside the library; the library fixes the
//! snapshot's shape and its fallback value.
use vstd::prelude::*;

verus! {

/// Host-wide physical memory at one instant, in bytes. `(0, 0)` is the
/// defined fallback when the host query fails: a sentinel, not an
/// error.
#[derive(Clone, Copy, Debug)]
pub struct SystemSnapshot {
    pub total_physical: u64,
    pub available_physical: u64,
}

impl SystemSnapshot {
    /// The snapshot reported when the host query failed.
    pub fn unavailable() -> (s: SystemSnapshot)
        ensures
            s.total_physical == 0,
            s.available_physical == 0,
    {
        SystemSnapshot { total_physical: 0, available_physical: 0 }
    }

    /// Whether this snapshot is the fallback rather than a reading.
    pub fn is_unavailable(&self) -> (b: bool)
        ensures
            b == (self.total_physical == 0 && self.available_physical == 0),
    {
        self.total_physical == 0 && self.available_physical == 0
    }
}

} // verus!
