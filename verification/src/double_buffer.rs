//! The double buffer: two fixed-capacity sample buffers, one active.
//!
//! Only the sampler mutates the double buffer; the buffer a swap takes out
//! is moved, never aliased, so no intermediate state of a swap can be
//! observed.

use vstd::prelude::*;

use crate::buffer::BUFFER_CAPACITY;
use crate::buffer::SampleBuffer;
use crate::buffer::buffer_clear;
use crate::buffer::buffer_len;
use crate::buffer::buffer_new;
use crate::buffer::buffer_push;
use crate::buffer::samples_of;

verus! {

/// Which of the two buffers is being filled.
#[derive(Clone, Copy, Debug, PartialEq, Eq, Structural)]
pub enum BufferSelect {
    A,
    B,
}

/// Two fixed-capacity sample buffers plus a selector naming the one being
/// filled. The selector names exactly one buffer; the other is either
/// empty or already moved out through the hand-off channel.
pub struct DoubleBuffer {
    buffer_a: SampleBuffer,
    buffer_b: SampleBuffer,
    current_buffer: BufferSelect,
}

impl DoubleBuffer {
    /// The samples in the buffer now being filled.
    pub closed spec fn active(self) -> Seq<u16> {
        match self.current_buffer {
            BufferSelect::A => samples_of(self.buffer_a),
            BufferSelect::B => samples_of(self.buffer_b),
        }
    }

    /// The samples in the idle buffer.
    pub closed spec fn inactive(self) -> Seq<u16> {
        match self.current_buffer {
            BufferSelect::A => samples_of(self.buffer_b),
            BufferSelect::B => samples_of(self.buffer_a),
        }
    }

    /// The selector's current value.
    pub closed spec fn selector(self) -> BufferSelect {
        self.current_buffer
    }

    /// Well-formed: the active buffer never exceeds the capacity, and the
    /// idle buffer is empty — it was emptied when it was last taken, so a
    /// swap always leaves a fresh buffer active.
    pub open spec fn wf(self) -> bool {
        self.active().len() <= BUFFER_CAPACITY && self.inactive().len() == 0
    }

    /// Two empty buffers, with buffer A active.
    pub fn new() -> (db: DoubleBuffer)
        ensures
            db.wf(),
            db.active() == Seq::<u16>::empty(),
            db.inactive() == Seq::<u16>::empty(),
            db.selector() == BufferSelect::A,
    {
        DoubleBuffer {
            buffer_a: buffer_new(),
            buffer_b: buffer_new(),
            current_buffer: BufferSelect::A,
        }
    }

    /// Read access to the buffer now being filled.
    pub fn get_current_buffer(&self) -> (b: &SampleBuffer)
        ensures
            samples_of(*b) == self.active(),
    {
        match self.current_buffer {
            BufferSelect::A => &self.buffer_a,
            BufferSelect::B => &self.buffer_b,
        }
    }

    /// Appends `v` to the active buffer. A push at capacity is rejected:
    /// the buffer is left unchanged and `false` comes back.
    pub fn push_sample(&mut self, v: u16) -> (accepted: bool)
        requires
            old(self).wf(),
        ensures
            final(self).wf(),
            final(self).selector() == old(self).selector(),
            final(self).inactive() == old(self).inactive(),
            old(self).active().len() < BUFFER_CAPACITY ==> accepted
                && final(self).active() == old(self).active().push(v),
            old(self).active().len() >= BUFFER_CAPACITY ==> !accepted
                && final(self).active() == old(self).active(),
    {
        match self.current_buffer {
            BufferSelect::A => buffer_push(&mut self.buffer_a, v),
            BufferSelect::B => buffer_push(&mut self.buffer_b, v),
        }
    }

    /// Whether the active buffer has reached the capacity.
    pub fn is_current_buffer_full(&self) -> (full: bool)
        ensures
            full == (self.active().len() >= BUFFER_CAPACITY),
    {
        let current_len: usize = match self.current_buffer {
            BufferSelect::A => buffer_len(&self.buffer_a),
            BufferSelect::B => buffer_len(&self.buffer_b),
        };
        current_len >= BUFFER_CAPACITY
    }

    /// Flips the selector and returns the buffer that was active, leaving
    /// the empty other buffer as the new active one. The whole exchange is
    /// one call on an exclusively borrowed value: no caller can observe a
    /// state in which the taken samples are in both buffers or in neither.
    pub fn swap_and_take(&mut self) -> (taken: SampleBuffer)
        requires
            old(self).wf(),
        ensures
            final(self).wf(),
            samples_of(taken) == old(self).active(),
            final(self).active() == old(self).inactive(),
            final(self).active().len() == 0,
            final(self).inactive().len() == 0,
            final(self).selector() != old(self).selector(),
    {
        let mut taken = buffer_new();
        match self.current_buffer {
            BufferSelect::A => {
                self.current_buffer = BufferSelect::B;
                core::mem::swap(&mut self.buffer_a, &mut taken);
            }
            BufferSelect::B => {
                self.current_buffer = BufferSelect::A;
                core::mem::swap(&mut self.buffer_b, &mut taken);
            }
        }
        taken
    }

    /// Empties the active buffer in place, without swapping. Used when
    /// lead-off gating discards a partly filled, unsynchronized window.
    pub fn clear_current_buffer(&mut self)
        requires
            old(self).wf(),
        ensures
            final(self).wf(),
            final(self).active() == Seq::<u16>::empty(),
            final(self).inactive() == old(self).inactive(),
            final(self).selector() == old(self).selector(),
    {
        match self.current_buffer {
            BufferSelect::A => buffer_clear(&mut self.buffer_a),
            BufferSelect::B => buffer_clear(&mut self.buffer_b),
        }
    }
}

/// However the double buffer was driven, the active buffer holds at most
/// the fixed capacity of samples.
pub proof fn lemma_active_len_bounded(db: DoubleBuffer)
    requires
        db.wf(),
    ensures
        db.active().len() <= BUFFER_CAPACITY,
{
}

/// An observer of a well-formed double buffer never finds samples in both
/// buffers at once: the idle buffer is always empty, so the pending window
/// lives in exactly one place, and a swap moves it out whole.
pub proof fn lemma_never_both_filled(db: DoubleBuffer)
    requires
        db.wf(),
    ensures
        !(db.active().len() > 0 && db.inactive().len() > 0),
        db.inactive().len() == 0,
{
}

} // verus!
