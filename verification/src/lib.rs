//! Verified core of a single-board biosignal sensor node.
//!
//! The node samples an analog biosignal at a fixed rate, gates sampling on
//! lead-off detection, collects samples in a double buffer, hands full
//! buffers to a network session over a bounded channel, and streams them to
//! a remote collector while a status indicator blinks at a rate that tracks
//! sensor health.
//!
//! This crate holds the data pipeline and the decision logic, verified:
//! the buffers, the hand-off channel's contracts, the sampler's per-tick
//! algorithm, the network session's state machine and payload arbitration,
//! and the indicator. The hardware collaborators (analog converter,
//! lead-off input pins, radio, IP stack, socket, LED) stay outside; a
//! composition root drives the loops and performs the I/O between steps.

pub mod buffer;
pub mod channel;
pub mod convert;
pub mod double_buffer;
pub mod fault;
pub mod indicator;
pub mod sampler;
pub mod session;
pub mod signal;
pub mod wire;
