//! The sampler: the per-tick algorithm of the acquisition task.
//!
//! Each tick first checks the lead-off inputs and publishes the
//! connected state. While either lead reports disconnected, sampling is
//! gated: no sample is taken and a partly filled window is discarded — a
//! window spanning a disconnect is not meaningful. Otherwise the caller
//! reads one raw code and hands it in; the sampler converts it to
//! millivolts and appends it. The moment the buffer fills it is swapped
//! out and offered to the hand-off channel without blocking; if the
//! channel is full the buffer is dropped and counted — recent data is
//! favored over stale, and the sampler never stalls on the network side.

use vstd::prelude::*;

use crate::buffer::BUFFER_CAPACITY;
use crate::buffer::buffer_len;
use crate::channel::CHANNEL_CAPACITY;
use crate::channel::HandoffChannel;
use crate::channel::queued_buffers;
use crate::convert::MAX_RAW_CODE;
use crate::convert::millivolts_of_raw;
use crate::convert::raw_to_millivolts;
use crate::double_buffer::DoubleBuffer;
use crate::signal::SensorConnectedSignal;

verus! {

/// Milliseconds between sampler ticks: the fixed sampling cadence.
pub const SAMPLE_TICK_MS: u64 = 5;

/// The acquisition task's state: the double buffer being filled and the
/// count of buffers dropped on a full channel.
pub struct Sampler {
    buffer: DoubleBuffer,
    dropped_buffers: u64,
}

impl Sampler {
    /// The samples accepted since the last hand-off or discard.
    pub closed spec fn pending(self) -> Seq<u16> {
        self.buffer.active()
    }

    /// How many full buffers were dropped because the channel was full.
    pub closed spec fn overflow_count(self) -> u64 {
        self.dropped_buffers
    }

    /// Well-formed: the double buffer is, and the active buffer is
    /// strictly below capacity — a buffer that fills is swapped out within
    /// the same tick, so it is never left full between ticks.
    pub closed spec fn wf(self) -> bool {
        self.buffer.wf() && self.buffer.active().len() < BUFFER_CAPACITY
    }

    /// A fresh sampler: empty buffers, nothing dropped.
    pub fn new() -> (s: Sampler)
        ensures
            s.wf(),
            s.pending() == Seq::<u16>::empty(),
            s.overflow_count() == 0,
    {
        Sampler { buffer: DoubleBuffer::new(), dropped_buffers: 0 }
    }

    /// The number of samples pending in the active buffer.
    pub fn pending_sample_count(&self) -> (n: usize)
        ensures
            n == self.pending().len(),
    {
        buffer_len(self.buffer.get_current_buffer())
    }

    /// The number of buffers dropped on a full channel so far.
    pub fn dropped_buffer_count(&self) -> (n: u64)
        ensures
            n == self.overflow_count(),
    {
        self.dropped_buffers
    }

    /// First half of a tick: reads the lead-off state and publishes the
    /// connected flag. While either lead is off, sampling is gated: any
    /// partly filled window is discarded and no sample is read this tick.
    pub fn check_leads(
        &mut self,
        sig: &mut SensorConnectedSignal,
        lead_min_off: bool,
        lead_plus_off: bool,
    ) -> (sample_now: bool)
        requires
            old(self).wf(),
        ensures
            final(self).wf(),
            sample_now == !(lead_min_off || lead_plus_off),
            final(sig).pending_value() == Some(sample_now),
            final(self).overflow_count() == old(self).overflow_count(),
            sample_now ==> final(self).pending() == old(self).pending(),
            !sample_now ==> final(self).pending() == Seq::<u16>::empty(),
    {
        if lead_min_off || lead_plus_off {
            sig.signal(false);
            if self.pending_sample_count() > 0 {
                self.buffer.clear_current_buffer();
            }
            false
        } else {
            sig.signal(true);
            true
        }
    }

    /// Second half of an ungated tick: converts the raw code and appends
    /// the millivolt sample. When the buffer fills it is swapped out and
    /// offered to the channel in the same call; a send on a full channel
    /// drops the buffer and counts the overflow instead of blocking.
    pub fn accept_sample(&mut self, ch: &mut HandoffChannel, raw: u16) -> (overflowed: bool)
        requires
            old(self).wf(),
            raw <= MAX_RAW_CODE,
        ensures
            final(self).wf(),
            old(self).pending().len() + 1 < BUFFER_CAPACITY ==> {
                &&& final(self).pending()
                    == old(self).pending().push(millivolts_of_raw(raw as int) as u16)
                &&& queued_buffers(*final(ch)) == queued_buffers(*old(ch))
                &&& final(self).overflow_count() == old(self).overflow_count()
                &&& !overflowed
            },
            old(self).pending().len() + 1 == BUFFER_CAPACITY ==> {
                &&& final(self).pending() == Seq::<u16>::empty()
                &&& queued_buffers(*old(ch)).len() < CHANNEL_CAPACITY ==> {
                    &&& queued_buffers(*final(ch)) == queued_buffers(*old(ch)).push(
                        old(self).pending().push(millivolts_of_raw(raw as int) as u16))
                    &&& final(self).overflow_count() == old(self).overflow_count()
                    &&& !overflowed
                }
                &&& queued_buffers(*old(ch)).len() >= CHANNEL_CAPACITY ==> {
                    &&& queued_buffers(*final(ch)) == queued_buffers(*old(ch))
                    &&& overflowed
                    &&& final(self).overflow_count() == if old(self).overflow_count() < u64::MAX {
                        old(self).overflow_count() + 1
                    } else {
                        old(self).overflow_count() as int
                    }
                }
            },
    {
        let mv = raw_to_millivolts(raw);
        let _ = self.buffer.push_sample(mv);
        if self.buffer.is_current_buffer_full() {
            let full = self.buffer.swap_and_take();
            match ch.try_send(full) {
                None => false,
                Some(_) => {
                    if self.dropped_buffers < u64::MAX {
                        self.dropped_buffers = self.dropped_buffers + 1;
                    }
                    true
                }
            }
        } else {
            false
        }
    }
}

} // verus!
