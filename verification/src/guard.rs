//! The single-run guard: at most one cleaning run is in flight at a
//! time, and a request to start another while one is outstanding is a
//! no-op.
use vstd::prelude::*;

verus! {

/// One "start cleaning" request against a guard in the given state:
/// whether it is granted, and the state the guard is in afterwards (a
/// run is outstanding either way).
pub open spec fn spec_request(busy: bool) -> (bool, bool) {
    (!busy, true)
}

/// Tracks whether a cleaning run is outstanding, so that the start
/// trigger can be refused while one is.
pub struct RunGuard {
    busy: bool,
}

impl RunGuard {
    /// Whether a run is outstanding.
    pub closed spec fn busy(self) -> bool {
        self.busy
    }

    /// A fresh guard: no run outstanding.
    pub fn new() -> (g: RunGuard)
        ensures
            !g.busy(),
    {
        RunGuard { busy: false }
    }

    /// Requests the start of a run. The request is granted exactly when
    /// no run is outstanding; afterwards one is, so the caller must
    /// launch the run only when `granted` came back true.
    pub fn try_begin(&mut self) -> (granted: bool)
        ensures
            granted == spec_request(old(self).busy()).0,
            final(self).busy() == spec_request(old(self).busy()).1,
    {
        let granted = !self.busy;
        self.busy = true;
        granted
    }

    /// Marks the outstanding run as finished, so a new one may start.
    pub fn finish(&mut self)
        ensures
            !final(self).busy(),
    {
        self.busy = false;
    }
}

/// Two start requests in quick succession run exactly one cleaning: the
/// first grant leaves a run outstanding, so the second request is
/// denied whatever state the guard began in.
pub proof fn lemma_second_request_denied(busy: bool)
    ensures
        ({
            let (first, mid) = spec_request(busy);
            let (second, _last) = spec_request(mid);
            &&& !second
            &&& !busy ==> first
        }),
{
}

} // verus!
