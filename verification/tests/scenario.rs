use mumble_ping::codec::PingResponse;
use mumble_ping::policy::{poll_step, PollerState};
use mumble_ping::probe::{probe_step, ProbeOutcome, RecvEvent};

#[test]
fn server_bytes_to_published_status() {
    // One full pass: the server's datagram arrives, is decoded, and with an
    // empty channel on record the poller publishes the new count at once.
    let datagram = vec![
        0x00u8, 0x00, 0x00, 0x01, // version = 1
        0x00, 0x00, 0x00, 0x00, 0x00, 0x00, 0x00, 0x42, // identity = 0x42
        0x00, 0x00, 0x00, 0x03, // users = 3
        0x00, 0x00, 0x00, 0x10, // max_users = 16
        0x00, 0x00, 0x10, 0x00, // bandwidth = 4096
    ];
    let outcome = probe_step(RecvEvent::Datagram(datagram));
    let expected = PingResponse { version: 1, identity: 66, users: 3, max_users: 16, bandwidth: 4096 };
    assert_eq!(outcome, ProbeOutcome::Response(expected));

    let state = PollerState::new(5000);
    let (next, published) = poll_step(state, &outcome, 5002);
    assert_eq!(published, Some(b"Online: 3".to_vec()));
    assert_eq!(next, PollerState { last_known_user_count: 3, last_published_at: 5002 });
}

#[test]
fn no_datagram_within_bound_is_a_timeout() {
    // The bounded wait produced nothing: the probe reports a timeout, which
    // is transient, not an error.
    assert_eq!(probe_step(RecvEvent::NoReply), ProbeOutcome::Timeout);
}

#[test]
fn socket_failure_is_a_transport_error() {
    assert_eq!(probe_step(RecvEvent::TransportFailed), ProbeOutcome::TransportError);
}

#[test]
fn malformed_datagram_is_a_transport_error() {
    assert_eq!(
        probe_step(RecvEvent::Datagram(vec![1, 2, 3])),
        ProbeOutcome::TransportError
    );
}
