//! Classification of one probe attempt's outcome.
//!
//! A probe is a single request/response exchange over an unreliable,
//! connectionless transport.  The transport itself lives outside the
//! library; it reports back what one bounded wait produced, and
//! `probe_step` turns that report into the probe's result: a decoded
//! response, a timeout (expected under packet loss, retried at the next
//! cadence tick), or a transport error (a socket failure or a malformed
//! response).

use vstd::prelude::*;

use crate::codec::decode_response;
use crate::codec::decode_response_spec;
use crate::codec::PingResponse;

verus! {

/// What one bounded wait on the transport produced: a datagram's bytes,
/// nothing within the configured timeout, or a socket-level failure.
pub enum RecvEvent {
    Datagram(Vec<u8>),
    NoReply,
    TransportFailed,
}

/// The result of one probe attempt.  `Timeout` is transient and distinct
/// from `TransportError`: the former is expected under packet loss, the
/// latter covers socket failures and malformed responses.
#[derive(Debug, Clone, Copy, PartialEq, Eq, Structural)]
pub enum ProbeOutcome {
    Response(PingResponse),
    Timeout,
    TransportError,
}

/// How a transport report maps to a probe result: a datagram decodes to a
/// response or, if malformed, to a transport error; no datagram within the
/// bound is a timeout; a socket failure is a transport error.
pub open spec fn probe_outcome_spec(event: RecvEvent) -> ProbeOutcome {
    match event {
        RecvEvent::Datagram(buf) => match decode_response_spec(buf@) {
            Ok(resp) => ProbeOutcome::Response(resp),
            Err(_) => ProbeOutcome::TransportError,
        },
        RecvEvent::NoReply => ProbeOutcome::Timeout,
        RecvEvent::TransportFailed => ProbeOutcome::TransportError,
    }
}

/// Turns what the transport reported for one probe into the probe's
/// result.  In particular, when no datagram arrived within the bound the
/// result is `Timeout`, never an error and never a panic.
pub fn probe_step(event: RecvEvent) -> (r: ProbeOutcome)
    ensures
        r == probe_outcome_spec(event),
{
    match event {
        RecvEvent::Datagram(buf) => match decode_response(buf.as_slice()) {
            Ok(resp) => ProbeOutcome::Response(resp),
            Err(_) => ProbeOutcome::TransportError,
        },
        RecvEvent::NoReply => ProbeOutcome::Timeout,
        RecvEvent::TransportFailed => ProbeOutcome::TransportError,
    }
}

} // verus!
