//! The event dispatch loop's decision logic and state machine.
//!
//! The loop itself suspends on the event stream and on handler completion,
//! so the host that runs it lives outside this crate; everything the loop
//! decides — which entry point an event resolves to, the capability it is
//! invoked with, and how the loop's state advances — is a function here.

use vstd::prelude::*;

use crate::events::{wrap, wrap_spec, EventCapability, GatewayEvent};

verus! {

/// The entry points a host can dispatch to, one per supported event kind.
#[derive(Clone, Copy, Debug, PartialEq, Eq, Structural)]
pub enum EntryKind {
    OnMessage,
    OnMessageDelete,
    OnMessageUpdate,
}

/// Which entry-point functions the script environment holds after loading.
#[derive(Clone, Copy, Debug, PartialEq, Eq, Structural)]
pub struct EntryPointSet {
    pub has_message: bool,
    pub has_message_delete: bool,
    pub has_message_update: bool,
}

impl EntryPointSet {
    /// Whether the entry point for the given kind is registered.
    pub open spec fn spec_registered(self, kind: EntryKind) -> bool {
        match kind {
            EntryKind::OnMessage => self.has_message,
            EntryKind::OnMessageDelete => self.has_message_delete,
            EntryKind::OnMessageUpdate => self.has_message_update,
        }
    }

    pub fn registered(&self, kind: EntryKind) -> (r: bool)
        ensures
            r == self.spec_registered(kind),
    {
        match kind {
            EntryKind::OnMessage => self.has_message,
            EntryKind::OnMessageDelete => self.has_message_delete,
            EntryKind::OnMessageUpdate => self.has_message_update,
        }
    }
}

/// The fixed global name each entry point is resolved by in the script
/// environment.
pub open spec fn entry_name_spec(kind: EntryKind) -> Seq<char> {
    match kind {
        EntryKind::OnMessage => "on_message"@,
        EntryKind::OnMessageDelete => "on_message_delete"@,
        EntryKind::OnMessageUpdate => "on_message_update"@,
    }
}

/// The fixed global name for one entry point, as the loader resolves it and
/// as the host looks the function up at invocation time.
pub fn entry_name(kind: EntryKind) -> (r: &'static str)
    ensures
        r@ == entry_name_spec(kind),
{
    match kind {
        EntryKind::OnMessage => "on_message",
        EntryKind::OnMessageDelete => "on_message_delete",
        EntryKind::OnMessageUpdate => "on_message_update",
    }
}

/// The entry point an event kind resolves to; `None` for kinds that are
/// never dispatched.
pub open spec fn entry_for(e: GatewayEvent) -> Option<EntryKind> {
    match e {
        GatewayEvent::MessageCreated { .. } => Some(EntryKind::OnMessage),
        GatewayEvent::MessageDeleted { .. } => Some(EntryKind::OnMessageDelete),
        GatewayEvent::MessageUpdated { .. } => Some(EntryKind::OnMessageUpdate),
        GatewayEvent::Ready => None,
        GatewayEvent::Unsupported => None,
    }
}

/// What the loop does with one inbound event.
#[derive(Clone, Debug, PartialEq)]
pub enum DispatchAction {
    /// Invoke the entry point with a freshly wrapped capability.
    Invoke { entry: EntryKind, capability: EventCapability },
    /// The readiness notice: the host only logs it.
    NoteReady,
    /// Dropped event (no entry point or no capability mapping); logged at
    /// debug level, never an error.
    Skip,
}

/// The dispatch decision for one event: invoke the matching entry point with
/// the wrapped capability when one is registered, otherwise drop the event.
pub open spec fn decision_spec(e: GatewayEvent, eps: EntryPointSet) -> DispatchAction {
    if e is Ready {
        DispatchAction::NoteReady
    } else {
        match (entry_for(e), wrap_spec(e)) {
            (Some(kind), Some(capability)) => if eps.spec_registered(kind) {
                DispatchAction::Invoke { entry: kind, capability }
            } else {
                DispatchAction::Skip
            },
            _ => DispatchAction::Skip,
        }
    }
}

/// Decides what to do with one inbound event.
pub fn dispatch_decision(e: &GatewayEvent, eps: &EntryPointSet) -> (a: DispatchAction)
    ensures
        a == decision_spec(*e, *eps),
{
    match e {
        GatewayEvent::Ready => DispatchAction::NoteReady,
        GatewayEvent::Unsupported => DispatchAction::Skip,
        _ => {
            let kind = match e {
                GatewayEvent::MessageCreated { .. } => EntryKind::OnMessage,
                GatewayEvent::MessageDeleted { .. } => EntryKind::OnMessageDelete,
                _ => EntryKind::OnMessageUpdate,
            };
            if eps.registered(kind) {
                match wrap(e) {
                    Some(capability) => DispatchAction::Invoke { entry: kind, capability },
                    None => DispatchAction::Skip,
                }
            } else {
                DispatchAction::Skip
            }
        },
    }
}

/// The loop's states: it starts idle, blocks on the stream, dispatches at
/// most one handler at a time, and terminates when the stream ends or a
/// handler invocation fails.
#[derive(Clone, Copy, Debug, PartialEq, Eq, Structural)]
pub enum LoopState {
    Idle,
    AwaitingEvent,
    Dispatching,
    Terminated,
}

/// The dispatch loop's control state. The host drives it: it performs the
/// suspension (awaiting the stream, awaiting the handler) and feeds each
/// outcome back; every transition is decided here.
pub struct DispatchMachine {
    pub state: LoopState,
}

impl DispatchMachine {
    pub fn new() -> (m: DispatchMachine)
        ensures
            m.state == LoopState::Idle,
    {
        DispatchMachine { state: LoopState::Idle }
    }

    /// The loop starts and blocks on the next event from the stream.
    pub fn start(&mut self)
        requires
            old(self).state == LoopState::Idle,
        ensures
            final(self).state == LoopState::AwaitingEvent,
    {
        self.state = LoopState::AwaitingEvent;
    }

    /// An event arrived. When it resolves to a registered entry point the
    /// loop enters `Dispatching` and the host must invoke the entry point
    /// with the returned capability; otherwise the event is dropped and the
    /// loop keeps awaiting.
    pub fn on_event(&mut self, e: &GatewayEvent, eps: &EntryPointSet) -> (a: DispatchAction)
        requires
            old(self).state == LoopState::AwaitingEvent,
        ensures
            a == decision_spec(*e, *eps),
            final(self).state == (if a is Invoke {
                LoopState::Dispatching
            } else {
                LoopState::AwaitingEvent
            }),
    {
        let a = dispatch_decision(e, eps);
        match a {
            DispatchAction::Invoke { .. } => {
                self.state = LoopState::Dispatching;
            },
            _ => {
                self.state = LoopState::AwaitingEvent;
            },
        }
        a
    }

    /// The awaited handler invocation completed. A success returns the loop
    /// to awaiting the next event — the loop never holds two invocations in
    /// flight — and an uncaught handler error terminates it.
    pub fn on_invocation_end(&mut self, succeeded: bool)
        requires
            old(self).state == LoopState::Dispatching,
        ensures
            final(self).state == (if succeeded {
                LoopState::AwaitingEvent
            } else {
                LoopState::Terminated
            }),
    {
        if succeeded {
            self.state = LoopState::AwaitingEvent;
        } else {
            self.state = LoopState::Terminated;
        }
    }

    /// The upstream event stream ended: clean shutdown.
    pub fn on_stream_end(&mut self)
        requires
            old(self).state == LoopState::AwaitingEvent,
        ensures
            final(self).state == LoopState::Terminated,
    {
        self.state = LoopState::Terminated;
    }
}

/// One handler invocation the loop performs: the entry point and the
/// capability it was invoked with.
#[derive(Clone, Debug, PartialEq)]
pub struct Invocation {
    pub entry: EntryKind,
    pub capability: EventCapability,
}

/// The invocations a sequence of inbound events produces, in arrival order:
/// one per event whose decision is to invoke, none for dropped events.
pub open spec fn invocations_of(events: Seq<GatewayEvent>, eps: EntryPointSet) -> Seq<Invocation>
    decreases events.len(),
{
    if events.len() == 0 {
        Seq::empty()
    } else {
        let rest = invocations_of(events.drop_last(), eps);
        match decision_spec(events.last(), eps) {
            DispatchAction::Invoke { entry, capability } => rest.push(
                Invocation { entry, capability },
            ),
            _ => rest,
        }
    }
}

/// Replays the dispatch decisions for a whole event sequence, yielding the
/// handler invocations in order. This is the loop with its suspension points
/// removed: the host performs each invocation where this lists one.
pub fn simulate_dispatch(events: &Vec<GatewayEvent>, eps: &EntryPointSet) -> (r: Vec<Invocation>)
    ensures
        r@ == invocations_of(events@, *eps),
{
    let mut out: Vec<Invocation> = Vec::new();
    let mut i: usize = 0;
    while i < events.len()
        invariant
            0 <= i <= events@.len(),
            out@ == invocations_of(events@.take(i as int), *eps),
        decreases events@.len() - i,
    {
        let a = dispatch_decision(&events[i], eps);
        proof {
            assert(events@.take(i + 1 as int).drop_last() =~= events@.take(i as int));
            assert(events@.take(i + 1 as int).last() == events@[i as int]);
        }
        match a {
            DispatchAction::Invoke { entry, capability } => {
                out.push(Invocation { entry, capability });
            },
            _ => {},
        }
        i = i + 1;
    }
    proof {
        assert(events@.take(events@.len() as int) =~= events@);
    }
    out
}

/// Law: a sequence of created-message events, dispatched while the message
/// entry point is registered, produces exactly one invocation per event, in
/// arrival order, each of the message entry point and each carrying the
/// capability wrapped from its own event — so its `content` is the
/// triggering event's text exactly.
pub proof fn lemma_message_dispatch_exact(events: Seq<GatewayEvent>, eps: EntryPointSet)
    requires
        eps.has_message,
        forall|i: int| 0 <= i < events.len() ==> events[i] is MessageCreated,
    ensures
        invocations_of(events, eps).len() == events.len(),
        forall|i: int|
            0 <= i < events.len() ==> (#[trigger] invocations_of(events, eps)[i]).entry
                == EntryKind::OnMessage && Some(invocations_of(events, eps)[i].capability)
                == wrap_spec(events[i]),
        forall|i: int|
            0 <= i < events.len() ==> ((#[trigger] events[i]) matches GatewayEvent::MessageCreated {
                content,
                channel_id,
            } ==> invocations_of(events, eps)[i].capability == (EventCapability::Message {
                content,
                target: channel_id,
            })),
    decreases events.len(),
{
    if events.len() > 0 {
        lemma_message_dispatch_exact(events.drop_last(), eps);
        assert(events.last() is MessageCreated);
        assert(forall|i: int|
            0 <= i < events.len() - 1 ==> #[trigger] events.drop_last()[i] == events[i]);
    }
}

/// Law: re-delivering the same event twice produces two invocations, each
/// with a capability constructed afresh from that event by the same total
/// wrapping function — no capability is cached, deduplicated, or shared
/// between the two deliveries.
pub proof fn lemma_redelivery_independent(
    e: GatewayEvent,
    eps: EntryPointSet,
    entry: EntryKind,
    capability: EventCapability,
)
    requires
        decision_spec(e, eps) == (DispatchAction::Invoke { entry, capability }),
    ensures
        invocations_of(seq![e, e], eps).len() == 2,
        invocations_of(seq![e, e], eps)[0] == (Invocation { entry, capability }),
        invocations_of(seq![e, e], eps)[1] == (Invocation { entry, capability }),
        Some(capability) == wrap_spec(e),
{
    reveal_with_fuel(invocations_of, 4);
    let two = seq![e, e];
    assert(two.drop_last() =~= seq![e]);
    assert(seq![e].drop_last() =~= Seq::<GatewayEvent>::empty());
    assert(invocations_of(Seq::<GatewayEvent>::empty(), eps) =~= Seq::<Invocation>::empty());
    assert(seq![e].last() == e);
    assert(invocations_of(seq![e], eps) =~= seq![Invocation { entry, capability }]);
    assert(invocations_of(two, eps) =~= seq![
        Invocation { entry, capability },
        Invocation { entry, capability },
    ]);
}

} // verus!
