//! The status indicator: blink-rate selection from sensor health.
//!
//! The LED toggles every tick; the tick period is long while the sensor is
//! connected and short — a fast, attention-needed blink — while it is not.
//! The indicator polls the signal without blocking and keeps its last
//! interpretation when nothing new was published.

use vstd::prelude::*;

use crate::signal::SensorConnectedSignal;

verus! {

/// Milliseconds between LED toggles while the sensor is connected.
pub const CONNECTED_BLINK_MS: u64 = 1000;

/// Milliseconds between LED toggles while the sensor is disconnected.
pub const DISCONNECTED_BLINK_MS: u64 = 200;

/// Latches the most recent sensor-connected value and picks the blink
/// delay from it.
pub struct StatusIndicator {
    connected: bool,
}

impl StatusIndicator {
    /// The last known sensor-connected value.
    pub closed spec fn last_known(self) -> bool {
        self.connected
    }

    /// Starts out treating the sensor as connected, as the node does
    /// before the first signal arrives.
    pub fn new() -> (s: StatusIndicator)
        ensures
            s.last_known(),
    {
        StatusIndicator { connected: true }
    }

    /// One indicator tick: consumes a pending signal value, if any, and
    /// returns the delay until the next LED toggle. With no new value the
    /// previous interpretation is kept — latest-value, not edge-triggered.
    pub fn tick(&mut self, sig: &mut SensorConnectedSignal) -> (delay_ms: u64)
        ensures
            final(sig).pending_value() is None,
            final(self).last_known() == match old(sig).pending_value() {
                Some(v) => v,
                None => old(self).last_known(),
            },
            delay_ms == if final(self).last_known() {
                CONNECTED_BLINK_MS
            } else {
                DISCONNECTED_BLINK_MS
            },
    {
        if let Some(new_state) = sig.try_take() {
            self.connected = new_state;
        }
        if self.connected {
            CONNECTED_BLINK_MS
        } else {
            DISCONNECTED_BLINK_MS
        }
    }
}

} // verus!
