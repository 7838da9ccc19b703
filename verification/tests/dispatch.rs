use pink::dispatch::{
    dispatch_decision, simulate_dispatch, DispatchAction, DispatchMachine, EntryKind,
    EntryPointSet, LoopState,
};
use pink::events::{wrap, EventCapability, GatewayEvent};

fn all_registered() -> EntryPointSet {
    EntryPointSet { has_message: true, has_message_delete: true, has_message_update: true }
}

fn message(content: &str, channel_id: u64) -> GatewayEvent {
    GatewayEvent::MessageCreated { content: content.to_owned(), channel_id }
}

#[test]
fn each_message_event_invoked_once_in_order_with_its_content() {
    let eps = all_registered();
    let events = vec![message("one", 1), message("two", 2), message("three", 3)];
    let invocations = simulate_dispatch(&events, &eps);
    assert_eq!(invocations.len(), 3);
    let expected = ["one", "two", "three"];
    for (i, inv) in invocations.iter().enumerate() {
        assert_eq!(inv.entry, EntryKind::OnMessage);
        match &inv.capability {
            EventCapability::Message { content, target } => {
                assert_eq!(content, expected[i]);
                assert_eq!(*target, (i + 1) as u64);
            }
            other => panic!("wrong capability kind: {:?}", other),
        }
    }
}

#[test]
fn redelivered_event_produces_two_fresh_invocations() {
    let eps = all_registered();
    let e = message("again", 9);
    let invocations = simulate_dispatch(&vec![e.clone(), e.clone()], &eps);
    assert_eq!(invocations.len(), 2);
    assert_eq!(invocations[0], invocations[1]);
    let wrapped = wrap(&e).unwrap();
    assert_eq!(invocations[0].capability, wrapped);
    assert_eq!(invocations[1].capability, wrapped);
}

#[test]
fn events_without_entry_point_or_mapping_are_skipped() {
    let eps = EntryPointSet { has_message: true, has_message_delete: true, has_message_update: false };
    let updated = GatewayEvent::MessageUpdated { content: Some("x".to_owned()), channel_id: 5 };
    assert_eq!(dispatch_decision(&updated, &eps), DispatchAction::Skip);
    assert_eq!(dispatch_decision(&GatewayEvent::Unsupported, &eps), DispatchAction::Skip);
    assert_eq!(dispatch_decision(&GatewayEvent::Ready, &eps), DispatchAction::NoteReady);
}

#[test]
fn delete_event_resolves_to_its_own_entry_point() {
    let eps = all_registered();
    let e = GatewayEvent::MessageDeleted { id: 77, channel_id: 8 };
    match dispatch_decision(&e, &eps) {
        DispatchAction::Invoke { entry, capability } => {
            assert_eq!(entry, EntryKind::OnMessageDelete);
            assert_eq!(
                capability,
                EventCapability::MessageDelete { id: 77, channel_id: 8, target: 8 }
            );
        }
        other => panic!("expected an invocation, got {:?}", other),
    }
}

#[test]
fn machine_serializes_one_invocation_at_a_time() {
    let eps = all_registered();
    let mut machine = DispatchMachine::new();
    assert_eq!(machine.state, LoopState::Idle);
    machine.start();
    assert_eq!(machine.state, LoopState::AwaitingEvent);

    let action = machine.on_event(&message("hello", 4), &eps);
    assert!(matches!(action, DispatchAction::Invoke { .. }));
    assert_eq!(machine.state, LoopState::Dispatching);

    machine.on_invocation_end(true);
    assert_eq!(machine.state, LoopState::AwaitingEvent);

    let skipped = machine.on_event(&GatewayEvent::Unsupported, &eps);
    assert_eq!(skipped, DispatchAction::Skip);
    assert_eq!(machine.state, LoopState::AwaitingEvent);

    machine.on_stream_end();
    assert_eq!(machine.state, LoopState::Terminated);
}

#[test]
fn failed_invocation_terminates_the_loop() {
    let eps = all_registered();
    let mut machine = DispatchMachine::new();
    machine.start();
    let action = machine.on_event(&message("bad", 2), &eps);
    assert!(matches!(action, DispatchAction::Invoke { .. }));
    machine.on_invocation_end(false);
    assert_eq!(machine.state, LoopState::Terminated);
}
