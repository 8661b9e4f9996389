//! Tests of the network session state machine: association, lease wait,
//! data-over-keepalive arbitration, and reconnect-on-error.

use sensor_node::buffer::BUFFER_CAPACITY;
use sensor_node::channel::HandoffChannel;
use sensor_node::session::NetworkSession;
use sensor_node::session::SessionState;
use sensor_node::signal::SensorConnectedSignal;
use sensor_node::indicator::StatusIndicator;

type RawBuffer = heapless::Vec<u16, BUFFER_CAPACITY>;

fn session_at_idle() -> NetworkSession {
    let mut s = NetworkSession::new();
    s.begin_association();
    assert!(!s.on_association_poll(Ok(true)));
    s.on_lease_poll(true);
    s.on_socket_opened(true);
    assert_eq!(s.state, SessionState::Idle);
    s
}

#[test]
fn association_walks_through_the_phases() {
    let mut s = NetworkSession::new();
    assert_eq!(s.state, SessionState::Disconnected);
    s.begin_association();
    assert_eq!(s.state, SessionState::Associating);
    assert!(!s.on_association_poll(Ok(false)));
    assert_eq!(s.state, SessionState::Associating);
    assert!(!s.on_association_poll(Ok(true)));
    assert_eq!(s.state, SessionState::WaitingForLease);
    s.on_lease_poll(false);
    assert_eq!(s.state, SessionState::WaitingForLease);
    s.on_lease_poll(true);
    assert_eq!(s.state, SessionState::Idle);
}

#[test]
fn association_error_is_fatal() {
    let mut s = NetworkSession::new();
    s.begin_association();
    assert!(s.on_association_poll(Err(())));
    assert_eq!(s.state, SessionState::Associating);
}

#[test]
fn empty_channel_sends_exactly_one_ping() {
    let mut s = session_at_idle();
    let mut ch = HandoffChannel::new();
    let t = s.plan_transmission(&mut ch);
    assert!(!t.is_data);
    assert_eq!(t.payload, b"PING");
    assert_eq!(t.payload.len(), 4);
    assert_eq!(s.state, SessionState::Idle);
    assert_eq!(ch.len(), 0);
}

#[test]
fn queued_buffer_preempts_keepalive() {
    let mut s = session_at_idle();
    let mut ch = HandoffChannel::new();
    ch.try_send(RawBuffer::from_slice(&[1, 258, 65535]).unwrap());
    let t = s.plan_transmission(&mut ch);
    assert!(t.is_data);
    // Two little-endian bytes per sample, no framing.
    assert_eq!(t.payload, vec![1, 0, 2, 1, 255, 255]);
    assert_eq!(s.state, SessionState::Streaming);
    assert_eq!(ch.len(), 0);
    // With the channel drained, the next iteration falls back to the ping.
    let t2 = s.plan_transmission(&mut ch);
    assert!(!t2.is_data);
    assert_eq!(t2.payload, b"PING");
    assert_eq!(s.state, SessionState::Idle);
}

#[test]
fn buffers_drain_oldest_first_before_any_ping() {
    let mut s = session_at_idle();
    let mut ch = HandoffChannel::new();
    ch.try_send(RawBuffer::from_slice(&[5]).unwrap());
    ch.try_send(RawBuffer::from_slice(&[6]).unwrap());
    let t1 = s.plan_transmission(&mut ch);
    assert!(t1.is_data);
    assert_eq!(t1.payload, vec![5, 0]);
    let t2 = s.plan_transmission(&mut ch);
    assert!(t2.is_data);
    assert_eq!(t2.payload, vec![6, 0]);
    let t3 = s.plan_transmission(&mut ch);
    assert!(!t3.is_data);
}

#[test]
fn write_failure_forces_reopen_before_next_send() {
    let mut s = session_at_idle();
    let mut ch = HandoffChannel::new();
    ch.try_send(RawBuffer::from_slice(&[9]).unwrap());
    let t = s.plan_transmission(&mut ch);
    assert!(t.is_data);
    // The socket write fails during streaming: the connection is marked
    // for reopen and the next iteration starts from the open check.
    s.on_transmit_result(false);
    assert_eq!(s.state, SessionState::ReconnectPending);
    // Reopen fails once: retried on the next iteration, never fatal.
    s.on_socket_opened(false);
    assert_eq!(s.state, SessionState::ReconnectPending);
    // Reopen succeeds: the loop resumes sending.
    s.on_socket_opened(true);
    assert_eq!(s.state, SessionState::Idle);
    let t2 = s.plan_transmission(&mut ch);
    assert!(!t2.is_data);
    s.on_transmit_result(true);
    assert_eq!(s.state, SessionState::Idle);
}

#[test]
fn flush_success_keeps_streaming_state() {
    let mut s = session_at_idle();
    let mut ch = HandoffChannel::new();
    ch.try_send(RawBuffer::from_slice(&[1]).unwrap());
    s.plan_transmission(&mut ch);
    s.on_transmit_result(true);
    assert_eq!(s.state, SessionState::Streaming);
}

#[test]
fn indicator_blinks_slow_when_connected_fast_when_not() {
    let mut ind = StatusIndicator::new();
    let mut sig = SensorConnectedSignal::new();
    // No value published yet: the initial interpretation (connected) holds.
    assert_eq!(ind.tick(&mut sig), 1000);
    sig.signal(false);
    assert_eq!(ind.tick(&mut sig), 200);
    // Nothing new published: the last interpretation is kept.
    assert_eq!(ind.tick(&mut sig), 200);
    // Latest value wins; the intermediate write is lost by design.
    sig.signal(false);
    sig.signal(true);
    assert_eq!(ind.tick(&mut sig), 1000);
}
