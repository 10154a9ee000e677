use mumble_ping::codec::PingResponse;
use mumble_ping::policy::{online_message, poll_step, should_publish, PollerState, PING_INTERVAL};
use mumble_ping::probe::ProbeOutcome;

fn response_with_users(users: u32) -> PingResponse {
    PingResponse { version: 1, identity: 7, users, max_users: 100, bandwidth: 128000 }
}

#[test]
fn publishes_when_empty_channel_gains_users() {
    // With no users known, a nonzero reading publishes at any elapsed time.
    for elapsed in [0u64, 1, 10, PING_INTERVAL - 1, PING_INTERVAL, 10_000] {
        let state = PollerState::new(1000);
        assert!(should_publish(&state, 5, 1000 + elapsed));
    }
}

#[test]
fn holds_changed_count_back_inside_interval() {
    let state = PollerState { last_known_user_count: 5, last_published_at: 1000 };
    assert!(!should_publish(&state, 7, 1000));
    assert!(!should_publish(&state, 7, 1000 + PING_INTERVAL - 1));
}

#[test]
fn publishes_once_interval_elapsed() {
    let state = PollerState { last_known_user_count: 5, last_published_at: 1000 };
    assert!(should_publish(&state, 7, 1000 + PING_INTERVAL));
    assert!(should_publish(&state, 7, 1000 + PING_INTERVAL + 1));
    // Even an unchanged or zero reading goes out on the interval tick.
    assert!(should_publish(&state, 5, 1000 + PING_INTERVAL));
    assert!(should_publish(&state, 0, 1000 + PING_INTERVAL));
}

#[test]
fn zero_reading_on_empty_channel_waits_for_interval() {
    let state = PollerState::new(1000);
    assert!(!should_publish(&state, 0, 1000 + 1));
    assert!(should_publish(&state, 0, 1000 + PING_INTERVAL));
}

#[test]
fn poll_step_publishes_and_updates_state() {
    let state = PollerState::new(1000);
    let outcome = ProbeOutcome::Response(response_with_users(5));
    let (next, published) = poll_step(state, &outcome, 1003);
    assert_eq!(next, PollerState { last_known_user_count: 5, last_published_at: 1003 });
    assert_eq!(published, Some(b"Online: 5".to_vec()));
}

#[test]
fn poll_step_holds_state_when_policy_says_no() {
    let state = PollerState { last_known_user_count: 5, last_published_at: 1000 };
    let outcome = ProbeOutcome::Response(response_with_users(7));
    let (next, published) = poll_step(state, &outcome, 1100);
    assert_eq!(next, state);
    assert_eq!(published, None);
}

#[test]
fn poll_step_treats_failures_as_no_new_information() {
    let state = PollerState { last_known_user_count: 5, last_published_at: 1000 };
    let (next, published) = poll_step(state, &ProbeOutcome::Timeout, 1000 + 2 * PING_INTERVAL);
    assert_eq!(next, state);
    assert_eq!(published, None);
    let (next, published) =
        poll_step(state, &ProbeOutcome::TransportError, 1000 + 2 * PING_INTERVAL);
    assert_eq!(next, state);
    assert_eq!(published, None);
}

#[test]
fn online_message_renders_decimal_count() {
    assert_eq!(online_message(3), b"Online: 3".to_vec());
    assert_eq!(online_message(0), b"Online: 0".to_vec());
    assert_eq!(online_message(42), b"Online: 42".to_vec());
    assert_eq!(online_message(305), b"Online: 305".to_vec());
    assert_eq!(online_message(u32::MAX), b"Online: 4294967295".to_vec());
}
