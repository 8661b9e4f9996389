//! The latest-value cell carrying the sensor-connected flag.
//!
//! A single slot that each write overwrites: a reader takes the most
//! recent value or nothing. Intermediate values are lost by design — a
//! late reader only ever cares about the newest state.

use vstd::prelude::*;

verus! {

/// Single-writer, latest-value-wins cell of the sensor-connected flag.
pub struct SensorConnectedSignal {
    slot: Option<bool>,
}

impl SensorConnectedSignal {
    /// The value published since the last take, if any.
    pub closed spec fn pending_value(self) -> Option<bool> {
        self.slot
    }

    /// An empty cell: nothing published yet.
    pub fn new() -> (s: SensorConnectedSignal)
        ensures
            s.pending_value() is None,
    {
        SensorConnectedSignal { slot: None }
    }

    /// Publishes `v`, overwriting any value not yet taken.
    pub fn signal(&mut self, v: bool)
        ensures
            final(self).pending_value() == Some(v),
    {
        self.slot = Some(v);
    }

    /// Takes the most recent published value, leaving the cell empty;
    /// nothing when no value was published since the last take.
    pub fn try_take(&mut self) -> (taken: Option<bool>)
        ensures
            taken == old(self).pending_value(),
            final(self).pending_value() is None,
    {
        let taken = self.slot;
        self.slot = None;
        taken
    }
}

} // verus!
