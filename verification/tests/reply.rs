use pink::events::EventCapability;
use pink::reply::{complete_reply, reply_request, ActionError, OutboundSend};

#[test]
fn reply_builds_exactly_one_send_to_the_bound_target() {
    let capability = EventCapability::Message { content: "hi".to_owned(), target: 42 };
    let send = reply_request(&capability, "X");
    assert_eq!(send, OutboundSend { target: 42, body: "X".to_owned() });
}

#[test]
fn reply_target_comes_from_the_capability_not_the_text() {
    let capability = EventCapability::MessageDelete { id: 1, channel_id: 9, target: 9 };
    let send = reply_request(&capability, "gone");
    assert_eq!(send.target, 9);
    assert_eq!(send.body, "gone");
}

#[test]
fn reply_result_reflects_the_transport_outcome() {
    assert!(complete_reply(Ok(())).is_ok());
    match complete_reply(Err("connection reset".to_owned())) {
        Err(ActionError::Send { message }) => assert_eq!(message, "connection reset"),
        other => panic!("expected the send failure to surface, got {:?}", other),
    }
}
