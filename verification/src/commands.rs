//! Dispatch of chat commands to actions.
//!
//! The bridge answers two configured command tokens: a show-link command,
//! answered with the configured connection string, and a show-status
//! command, answered with the user count from one fresh probe (or a
//! visible error text when the probe fails).  Sending the reply is the
//! chat platform's business; this module decides which reply to send.

use vstd::prelude::*;

use vstd::string::StrSliceExecFns;

use crate::policy::dec_digits;
use crate::probe::ProbeOutcome;

verus! {

/// What an inbound chat message asks of the bridge.
#[derive(Debug, Clone, Copy, PartialEq, Eq, Structural)]
pub enum CommandAction {
    /// Reply with the configured connection string.
    ShowLink,
    /// Probe once and reply with the current user count.
    ShowStatus,
    /// Not a command of the bridge; say nothing.
    Ignore,
}

/// Character-for-character string equality.
fn str_eq(a: &str, b: &str) -> (r: bool)
    ensures
        r == (a@ == b@),
{
    let alen = a.unicode_len();
    let blen = b.unicode_len();
    if alen != blen {
        return false;
    }
    let mut i: usize = 0;
    while i < alen
        invariant
            alen == a@.len(),
            alen == b@.len(),
            i <= alen,
            forall|j: int| 0 <= j < i ==> a@[j] == b@[j],
        decreases alen - i,
    {
        if a.get_char(i) != b.get_char(i) {
            return false;
        }
        i += 1;
    }
    proof {
        assert(a@ =~= b@);
    }
    true
}

/// Maps a message's text to the action it asks for.  The show-link token
/// is matched first, so it wins if the two configured tokens are equal.
pub fn dispatch_command(content: &str, link_command: &str, status_command: &str) -> (a:
    CommandAction)
    ensures
        a == CommandAction::ShowLink <==> content@ == link_command@,
        a == CommandAction::ShowStatus <==> content@ != link_command@ && content@
            == status_command@,
        a == CommandAction::Ignore <==> content@ != link_command@ && content@ != status_command@,
{
    if str_eq(content, link_command) {
        CommandAction::ShowLink
    } else if str_eq(content, status_command) {
        CommandAction::ShowStatus
    } else {
        CommandAction::Ignore
    }
}

/// The error text a failed command-triggered probe is answered with.
pub open spec fn no_response_text() -> Seq<u8> {
    seq![0x6eu8, 0x6f, 0x20, 0x72, 0x65, 0x73, 0x70, 0x6f, 0x6e, 0x73, 0x65]
}

/// The reply to the show-status command: the user count in decimal when
/// the probe succeeded, a visible `no response` text when it did not —
/// a failed probe must never leave the command unanswered.
pub fn status_reply(outcome: &ProbeOutcome) -> (m: Vec<u8>)
    ensures
        match *outcome {
            ProbeOutcome::Response(resp) => m@ == dec_digits(resp.users as nat),
            ProbeOutcome::Timeout => m@ == no_response_text(),
            ProbeOutcome::TransportError => m@ == no_response_text(),
        },
{
    match *outcome {
        ProbeOutcome::Response(resp) => crate::policy::user_count_text(resp.users),
        ProbeOutcome::Timeout => no_response_reply(),
        ProbeOutcome::TransportError => no_response_reply(),
    }
}

/// Renders the error text.
fn no_response_reply() -> (m: Vec<u8>)
    ensures
        m@ == no_response_text(),
{
    let mut out: Vec<u8> = Vec::new();
    out.push(0x6e);  // 'n'
    out.push(0x6f);  // 'o'
    out.push(0x20);  // ' '
    out.push(0x72);  // 'r'
    out.push(0x65);  // 'e'
    out.push(0x73);  // 's'
    out.push(0x70);  // 'p'
    out.push(0x6f);  // 'o'
    out.push(0x6e);  // 'n'
    out.push(0x73);  // 's'
    out.push(0x65);  // 'e'
    proof {
        assert(out@ =~= no_response_text());
    }
    out
}

} // verus!
