//! Platform events, reduced to the plain values the host reads, and the
//! capability objects handed to script entry points.
//!
//! A capability exposes, per event kind, a fixed allow-list of read-only
//! fields plus the reply target captured from the triggering event. Nothing
//! outside that list is carried, so the sandbox boundary is structural.

use vstd::prelude::*;

verus! {

/// One inbound platform event, holding exactly the values the host reads
/// from the native payload.
#[derive(Clone, Debug)]
pub enum GatewayEvent {
    MessageCreated { content: String, channel_id: u64 },
    MessageDeleted { id: u64, channel_id: u64 },
    /// An update need not carry new content; absence is preserved, so a
    /// script can tell "no new content" from an empty edit.
    MessageUpdated { content: Option<String>, channel_id: u64 },
    Ready,
    Unsupported,
}

/// The sandboxed object a script handler receives: allow-listed fields of
/// the triggering event, plus the target identifier its reply action is
/// bound to.
#[derive(Clone, Debug, PartialEq)]
pub enum EventCapability {
    Message { content: String, target: u64 },
    MessageDelete { id: u64, channel_id: u64, target: u64 },
    /// `content` is absent when the update carried none; the interpreter
    /// shows an absent value as nil.
    MessageUpdate { content: Option<String>, target: u64 },
}

impl EventCapability {
    /// The reply target bound into this capability at wrap time.
    pub open spec fn spec_target(self) -> u64 {
        match self {
            EventCapability::Message { target, .. } => target,
            EventCapability::MessageDelete { target, .. } => target,
            EventCapability::MessageUpdate { target, .. } => target,
        }
    }

    pub fn target(&self) -> (t: u64)
        ensures
            t == self.spec_target(),
    {
        match self {
            EventCapability::Message { target, .. } => *target,
            EventCapability::MessageDelete { target, .. } => *target,
            EventCapability::MessageUpdate { target, .. } => *target,
        }
    }
}

/// What wrapping an event yields: a capability for each supported kind,
/// nothing for kinds the host does not dispatch.
pub open spec fn wrap_spec(e: GatewayEvent) -> Option<EventCapability> {
    match e {
        GatewayEvent::MessageCreated { content, channel_id } => Some(
            EventCapability::Message { content, target: channel_id },
        ),
        GatewayEvent::MessageDeleted { id, channel_id } => Some(
            EventCapability::MessageDelete { id, channel_id, target: channel_id },
        ),
        GatewayEvent::MessageUpdated { content, channel_id } => Some(
            EventCapability::MessageUpdate { content, target: channel_id },
        ),
        GatewayEvent::Ready => None,
        GatewayEvent::Unsupported => None,
    }
}

/// Builds the capability for one event. Total and pure: supported kinds map
/// to a freshly built capability, unsupported kinds to `None`.
pub fn wrap(e: &GatewayEvent) -> (c: Option<EventCapability>)
    ensures
        c == wrap_spec(*e),
{
    match e {
        GatewayEvent::MessageCreated { content, channel_id } => Some(
            EventCapability::Message { content: content.clone(), target: *channel_id },
        ),
        GatewayEvent::MessageDeleted { id, channel_id } => Some(
            EventCapability::MessageDelete {
                id: *id,
                channel_id: *channel_id,
                target: *channel_id,
            },
        ),
        GatewayEvent::MessageUpdated { content, channel_id } => {
            let copied = match content {
                Some(text) => Some(text.clone()),
                None => None,
            };
            Some(EventCapability::MessageUpdate { content: copied, target: *channel_id })
        },
        GatewayEvent::Ready => None,
        GatewayEvent::Unsupported => None,
    }
}

} // verus!
