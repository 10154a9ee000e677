//! The poll loop's publish policy.
//!
//! The poller probes the server at a fixed cadence and republishes the
//! user count to the chat channel.  Channel renames are rate-limited by
//! the platform, so a new reading is published only when the channel just
//! went from empty to occupied, or when `PING_INTERVAL` seconds have
//! elapsed since the last publish.  A failed probe carries no new
//! information and never changes the published state.

use vstd::prelude::*;

use crate::probe::ProbeOutcome;

verus! {

/// Seconds that must elapse between two routine publishes.
pub const PING_INTERVAL: u64 = 300;

/// The poller's only mutable state: the user count it last published and
/// when (seconds since the epoch).  Owned by the single polling task.
#[derive(Debug, Clone, Copy, PartialEq, Eq, Structural)]
pub struct PollerState {
    pub last_known_user_count: u32,
    pub last_published_at: u64,
}

impl PollerState {
    /// The state at poller start: no users known, the start time counting
    /// as the last publish.
    pub fn new(start_time: u64) -> (s: PollerState)
        ensures
            s.last_known_user_count == 0,
            s.last_published_at == start_time,
    {
        PollerState { last_known_user_count: 0, last_published_at: start_time }
    }
}

/// When a fresh reading of `users` at time `now` must be published:
/// exactly when the last known count was zero and the new one is not
/// (someone joined an empty channel), or at least `PING_INTERVAL` seconds
/// have elapsed since the last publish.
pub open spec fn should_publish_spec(state: PollerState, users: u32, now: u64) -> bool {
    (state.last_known_user_count == 0 && users > 0) || now - state.last_published_at
        >= PING_INTERVAL
}

/// Decides whether a fresh reading is published now.
pub fn should_publish(state: &PollerState, users: u32, now: u64) -> (r: bool)
    requires
        state.last_published_at <= now,
    ensures
        r == should_publish_spec(*state, users, now),
{
    (state.last_known_user_count == 0 && users > 0) || now - state.last_published_at
        >= PING_INTERVAL
}

/// The decimal digits of `n`, as ASCII bytes, most significant first.
pub open spec fn dec_digits(n: nat) -> Seq<u8>
    decreases n,
{
    if n < 10 {
        seq![(0x30 + n) as u8]
    } else {
        dec_digits(n / 10) + seq![(0x30 + n % 10) as u8]
    }
}

/// The status text published to the channel: `Online: ` followed by the
/// user count in decimal.
pub open spec fn online_message_spec(users: u32) -> Seq<u8> {
    seq![0x4fu8, 0x6e, 0x6c, 0x69, 0x6e, 0x65, 0x3a, 0x20] + dec_digits(users as nat)
}

/// Appends the decimal digits of `n`.
fn push_dec_digits(out: &mut Vec<u8>, n: u32)
    ensures
        final(out)@ == old(out)@ + dec_digits(n as nat),
    decreases n,
{
    if n < 10 {
        out.push(0x30 + n as u8);
        proof {
            assert(out@ =~= old(out)@ + dec_digits(n as nat));
        }
    } else {
        push_dec_digits(out, n / 10);
        out.push(0x30 + (n % 10) as u8);
        proof {
            assert(out@ =~= old(out)@ + dec_digits(n as nat));
        }
    }
}

/// Renders a bare user count in decimal.
pub fn user_count_text(users: u32) -> (m: Vec<u8>)
    ensures
        m@ == dec_digits(users as nat),
{
    let mut out: Vec<u8> = Vec::new();
    push_dec_digits(&mut out, users);
    proof {
        assert(out@ =~= dec_digits(users as nat));
    }
    out
}

/// Renders the status text for a fresh user count.
pub fn online_message(users: u32) -> (m: Vec<u8>)
    ensures
        m@ == online_message_spec(users),
{
    let mut out: Vec<u8> = Vec::new();
    out.push(0x4f);  // 'O'
    out.push(0x6e);  // 'n'
    out.push(0x6c);  // 'l'
    out.push(0x69);  // 'i'
    out.push(0x6e);  // 'n'
    out.push(0x65);  // 'e'
    out.push(0x3a);  // ':'
    out.push(0x20);  // ' '
    push_dec_digits(&mut out, users);
    proof {
        assert(out@ =~= online_message_spec(users));
    }
    out
}

/// One iteration of the poll loop, after the probe: on a successful probe
/// that the policy elects to publish, the state takes the new count and
/// time and the status text goes out; on any other outcome — a timeout, a
/// transport error, or a reading the policy holds back — the state is kept
/// and nothing is published.
pub fn poll_step(state: PollerState, outcome: &ProbeOutcome, now: u64) -> (r: (
    PollerState,
    Option<Vec<u8>>,
))
    requires
        state.last_published_at <= now,
    ensures
        match *outcome {
            ProbeOutcome::Response(resp) => {
                if should_publish_spec(state, resp.users, now) {
                    &&& r.0 == PollerState {
                        last_known_user_count: resp.users,
                        last_published_at: now,
                    }
                    &&& r.1 matches Some(m) && m@ == online_message_spec(resp.users)
                } else {
                    r.0 == state && r.1 is None
                }
            },
            ProbeOutcome::Timeout => r.0 == state && r.1 is None,
            ProbeOutcome::TransportError => r.0 == state && r.1 is None,
        },
        r.0.last_published_at <= now,
{
    match *outcome {
        ProbeOutcome::Response(resp) => {
            if should_publish(&state, resp.users, now) {
                let msg = online_message(resp.users);
                (
                    PollerState { last_known_user_count: resp.users, last_published_at: now },
                    Some(msg),
                )
            } else {
                (state, None)
            }
        },
        ProbeOutcome::Timeout => (state, None),
        ProbeOutcome::TransportError => (state, None),
    }
}

/// Law: the publish policy reacts immediately to an empty channel gaining
/// users, holds a changed count back inside the publish interval, and
/// publishes any reading once the interval has elapsed.
pub proof fn lemma_publish_policy(state: PollerState, users: u32, now: u64)
    requires
        state.last_published_at <= now,
    ensures
        state.last_known_user_count == 0 && users > 0 ==> should_publish_spec(state, users, now),
        state.last_known_user_count > 0 && now - state.last_published_at < PING_INTERVAL
            ==> !should_publish_spec(state, users, now),
        now - state.last_published_at >= PING_INTERVAL ==> should_publish_spec(state, users, now),
{
}

} // verus!
