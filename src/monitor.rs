//! The decision half of continuous monitoring: when the device list has to
//! be shown again. The polling itself (enumerate, show, wait) is done by the
//! caller, which hands the number of devices found on each tick to
//! [`ChangeDetector::observe`].

use vstd::prelude::*;

verus! {

/// Remembers how many devices were shown last. Only the count is compared:
/// a tick that finds as many devices as were shown leads to no redraw, even
/// if they are other devices.
pub struct ChangeDetector {
    last_shown: Option<usize>,
}

impl ChangeDetector {
    /// The number of devices shown last; `None` before anything was shown.
    pub closed spec fn shown(&self) -> Option<usize> {
        self.last_shown
    }

    /// A detector that has shown nothing yet, so that the first tick redraws.
    pub fn new() -> (r: ChangeDetector)
        ensures
            r.shown() is None,
    {
        ChangeDetector { last_shown: None }
    }

    /// Records the number of devices found on this tick and says whether the
    /// list has to be shown again: on the first tick, and whenever the count
    /// differs from the one shown last.
    pub fn observe(&mut self, device_count: usize) -> (redraw: bool)
        ensures
            redraw == (old(self).shown() != Some(device_count)),
            final(self).shown() == Some(device_count),
    {
        let redraw = match self.last_shown {
            Some(c) => c != device_count,
            None => true,
        };
        self.last_shown = Some(device_count);
        redraw
    }
}

} // verus!
