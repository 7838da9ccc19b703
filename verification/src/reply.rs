//! The reply action: a script call on a capability becomes exactly one
//! outbound send, addressed to the target bound into the capability at wrap
//! time; the send itself is the transport's work, and its outcome is handed
//! back to the awaiting script frame unchanged.

use vstd::prelude::*;

use crate::events::EventCapability;

verus! {

/// One outbound send request: the target resource identifier and the text
/// body. The transport performs it; one request means one send.
#[derive(Clone, Debug, PartialEq)]
pub struct OutboundSend {
    pub target: u64,
    pub body: String,
}

/// A reply that the transport failed to deliver, as surfaced to the awaiting
/// script call. It never terminates the dispatch loop by itself.
#[derive(Clone, Debug, PartialEq)]
pub enum ActionError {
    Send { message: String },
}

/// Builds the one outbound send a `reply(text)` call issues: to the
/// capability's bound target, with exactly the given body.
pub fn reply_request(capability: &EventCapability, text: &str) -> (r: OutboundSend)
    ensures
        r.target == capability.spec_target(),
        r.body@ == text@,
{
    OutboundSend { target: capability.target(), body: text.to_owned() }
}

/// Maps the transport's outcome to the result the awaiting script call
/// receives: success if and only if the send succeeded, and a failed send's
/// message carried through unchanged.
pub fn complete_reply(outcome: Result<(), String>) -> (r: Result<(), ActionError>)
    ensures
        r is Ok <==> outcome is Ok,
        (r matches Err(ActionError::Send { message }) ==> outcome matches Err(m) && message@
            == m@),
{
    match outcome {
        Ok(()) => Ok(()),
        Err(m) => Err(ActionError::Send { message: m }),
    }
}

} // verus!
