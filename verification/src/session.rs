//! The network session state machine.
//!
//! The session owns the decisions: association, lease wait, socket
//! (re)open, and the per-iteration arbitration between draining the
//! hand-off channel and sending a keepalive. The caller performs the radio
//! and socket operations between steps and reports each outcome back; the
//! contracts pin the next state and the exact payload for every outcome.
//!
//! A transport fault is never fatal: it forces a reopen before the next
//! send. An association-layer error is fatal for the session — no retry
//! strategy exists for credential errors.

use vstd::prelude::*;

use crate::channel::HandoffChannel;
use crate::channel::queued_buffers;
use crate::buffer::buffer_to_vec;
use crate::wire::encode_samples;
use crate::wire::keepalive_bytes;
use crate::wire::keepalive_payload;
use crate::wire::wire_bytes;

verus! {

/// Milliseconds the session sleeps between loop iterations; bounds both
/// the keepalive interval and the worst-case data latency.
pub const SESSION_LOOP_DELAY_MS: u64 = 100;

/// The session's phase. Exactly one TCP socket exists per session; every
/// open and close is an explicit transition, never implicit.
#[derive(Clone, Copy, Debug, PartialEq, Eq, Structural)]
pub enum SessionState {
    /// Not yet associated with the radio network.
    Disconnected,
    /// Association issued; polling until the link is up.
    Associating,
    /// Link up; driving the IP stack until an address lease is confirmed.
    WaitingForLease,
    /// Socket usable, no data pending: keepalives flow.
    Idle,
    /// Socket usable, draining the hand-off channel.
    Streaming,
    /// A transport fault closed the connection; the socket must be
    /// reopened before the next send.
    ReconnectPending,
}

/// What one loop iteration sends.
pub struct Transmission {
    /// The bytes to write and flush.
    pub payload: Vec<u8>,
    /// Whether the payload is a full buffer (as opposed to the keepalive).
    pub is_data: bool,
}

/// The session state machine; starts out disconnected.
pub struct NetworkSession {
    /// The current phase.
    pub state: SessionState,
}

impl NetworkSession {
    /// A fresh session, not yet associated.
    pub fn new() -> (s: NetworkSession)
        ensures
            s.state == SessionState::Disconnected,
    {
        NetworkSession { state: SessionState::Disconnected }
    }

    /// Begins association: the caller now configures the radio with the
    /// stored credentials, starts it, and issues the connect.
    pub fn begin_association(&mut self)
        requires
            old(self).state == SessionState::Disconnected,
        ensures
            final(self).state == SessionState::Associating,
    {
        self.state = SessionState::Associating;
    }

    /// Takes the outcome of one association poll. A link-layer error is
    /// fatal for the session: no retry exists for credential errors, and
    /// the caller halts the session loop.
    pub fn on_association_poll(&mut self, connected: Result<bool, ()>) -> (fatal: bool)
        requires
            old(self).state == SessionState::Associating,
        ensures
            connected == Ok::<bool, ()>(true) ==> !fatal
                && final(self).state == SessionState::WaitingForLease,
            connected == Ok::<bool, ()>(false) ==> !fatal
                && final(self).state == SessionState::Associating,
            connected is Err ==> fatal && final(self).state == SessionState::Associating,
    {
        match connected {
            Ok(true) => {
                self.state = SessionState::WaitingForLease;
                false
            }
            Ok(false) => false,
            Err(()) => true,
        }
    }

    /// Takes the outcome of one IP-stack poll: once the interface reports
    /// an address lease, the socket may be opened and the loop begins.
    pub fn on_lease_poll(&mut self, iface_up: bool)
        requires
            old(self).state == SessionState::WaitingForLease,
        ensures
            iface_up ==> final(self).state == SessionState::Idle,
            !iface_up ==> final(self).state == SessionState::WaitingForLease,
    {
        if iface_up {
            self.state = SessionState::Idle;
        }
    }

    /// Takes the outcome of a socket open attempt against the fixed remote
    /// endpoint. An open failure is retried on the next iteration — the
    /// loop continues rather than aborting.
    pub fn on_socket_opened(&mut self, ok: bool)
        requires
            old(self).state == SessionState::Idle
                || old(self).state == SessionState::Streaming
                || old(self).state == SessionState::ReconnectPending,
        ensures
            ok ==> final(self).state == SessionState::Idle,
            !ok ==> final(self).state == SessionState::ReconnectPending,
    {
        if ok {
            self.state = SessionState::Idle;
        } else {
            self.state = SessionState::ReconnectPending;
        }
    }

    /// One arbitration step, taken with the socket open: a queued buffer,
    /// when present, always preempts the keepalive and leaves the session
    /// streaming; with the channel empty, exactly one four-byte `PING`
    /// goes out. The channel probe never waits.
    pub fn plan_transmission(&mut self, ch: &mut HandoffChannel) -> (t: Transmission)
        requires
            old(self).state == SessionState::Idle
                || old(self).state == SessionState::Streaming,
        ensures
            queued_buffers(*old(ch)).len() > 0 ==> {
                &&& t.is_data
                &&& t.payload@ == wire_bytes(queued_buffers(*old(ch))[0])
                &&& queued_buffers(*final(ch)) == queued_buffers(*old(ch)).drop_first()
                &&& final(self).state == SessionState::Streaming
            },
            queued_buffers(*old(ch)).len() == 0 ==> {
                &&& !t.is_data
                &&& t.payload@ == keepalive_bytes()
                &&& t.payload@.len() == 4
                &&& queued_buffers(*final(ch)) == queued_buffers(*old(ch))
                &&& final(self).state == SessionState::Idle
            },
    {
        match ch.try_receive() {
            Some(full) => {
                self.state = SessionState::Streaming;
                let samples = buffer_to_vec(&full);
                let payload = encode_samples(&samples);
                Transmission { payload, is_data: true }
            }
            None => {
                self.state = SessionState::Idle;
                Transmission { payload: keepalive_payload(), is_data: false }
            }
        }
    }

    /// Takes the combined write-and-flush outcome of the iteration's
    /// payload. A fault marks the connection for reopen — the caller
    /// closes the socket, and the next iteration must go through
    /// `on_socket_opened` before another transmission is planned.
    pub fn on_transmit_result(&mut self, ok: bool)
        requires
            old(self).state == SessionState::Idle
                || old(self).state == SessionState::Streaming,
        ensures
            ok ==> final(self).state == old(self).state,
            !ok ==> final(self).state == SessionState::ReconnectPending,
    {
        if !ok {
            self.state = SessionState::ReconnectPending;
        }
    }
}

} // verus!
