//! The bounded hand-off channel from the sampler to the network session.
//!
//! Full buffers cross task boundaries through `embassy_sync`'s bounded
//! channel. The channel mutates through a shared reference internally, so
//! the verifier cannot model it directly; it is held in an opaque struct
//! whose queue `queued_buffers` names, and the trusted wrappers below take
//! the channel exclusively and state what each call does to the queue, as
//! the channel's source shows. A send that finds the queue full never
//! blocks: the rejected buffer comes back to the caller, whose drop of it
//! is the deliberate overflow policy.

use vstd::prelude::*;

use crate::buffer::SampleBuffer;
use crate::buffer::samples_of;

verus! {

/// Number of full buffers the hand-off channel can queue.
pub const CHANNEL_CAPACITY: usize = 2;

/// Bounded single-producer/single-consumer FIFO of full sample buffers.
#[verifier::external_body]
pub struct HandoffChannel {
    inner: embassy_sync::channel::Channel<
        embassy_sync::blocking_mutex::raw::CriticalSectionRawMutex,
        SampleBuffer,
        CHANNEL_CAPACITY,
    >,
}

/// The buffers the channel queues, oldest first, each as its samples.
pub uninterp spec fn queued_buffers(ch: HandoffChannel) -> Seq<Seq<u16>>;

impl HandoffChannel {
    /// Relies on `embassy_sync::channel::Channel::new`: a new channel is
    /// empty.
    #[verifier::external_body]
    pub fn new() -> (ch: HandoffChannel)
        ensures
            queued_buffers(ch) == Seq::<Seq<u16>>::empty(),
    {
        HandoffChannel { inner: embassy_sync::channel::Channel::new() }
    }

    /// Relies on `embassy_sync::channel::Channel::try_send`: appends the
    /// buffer to the queue when it is below capacity; when the queue is
    /// full it hands the buffer back unchanged, without blocking.
    #[verifier::external_body]
    pub fn try_send(&mut self, b: SampleBuffer) -> (rejected: Option<SampleBuffer>)
        ensures
            queued_buffers(*old(self)).len() < CHANNEL_CAPACITY ==> rejected is None
                && queued_buffers(*final(self))
                    == queued_buffers(*old(self)).push(samples_of(b)),
            queued_buffers(*old(self)).len() >= CHANNEL_CAPACITY ==> {
                &&& queued_buffers(*final(self)) == queued_buffers(*old(self))
                &&& rejected matches Some(r) && samples_of(r) == samples_of(b)
            },
    {
        match self.inner.try_send(b) {
            Ok(()) => None,
            Err(embassy_sync::channel::TrySendError::Full(b)) => Some(b),
        }
    }

    /// Relies on `embassy_sync::channel::Channel::try_receive`: removes
    /// and returns the oldest queued buffer, or returns nothing when the
    /// queue is empty, without blocking.
    #[verifier::external_body]
    pub fn try_receive(&mut self) -> (taken: Option<SampleBuffer>)
        ensures
            queued_buffers(*old(self)).len() > 0 ==> {
                &&& taken matches Some(b) && samples_of(b) == queued_buffers(*old(self))[0]
                &&& queued_buffers(*final(self)) == queued_buffers(*old(self)).drop_first()
            },
            queued_buffers(*old(self)).len() == 0 ==> taken is None
                && queued_buffers(*final(self)) == queued_buffers(*old(self)),
    {
        match self.inner.try_receive() {
            Ok(b) => Some(b),
            Err(embassy_sync::channel::TryReceiveError::Empty) => None,
        }
    }

    /// Relies on `embassy_sync::channel::Channel::len`: the number of
    /// queued buffers.
    #[verifier::external_body]
    pub fn len(&self) -> (n: usize)
        ensures
            n == queued_buffers(*self).len(),
    {
        self.inner.len()
    }
}

} // verus!
