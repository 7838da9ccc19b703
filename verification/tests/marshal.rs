use pink::events::{wrap, EventCapability, GatewayEvent};

#[test]
fn created_message_exposes_content_and_binds_target() {
    let e = GatewayEvent::MessageCreated { content: "hello there".to_owned(), channel_id: 42 };
    assert_eq!(
        wrap(&e),
        Some(EventCapability::Message { content: "hello there".to_owned(), target: 42 })
    );
}

#[test]
fn deleted_message_exposes_id_and_channel() {
    let e = GatewayEvent::MessageDeleted { id: 1001, channel_id: 7 };
    assert_eq!(
        wrap(&e),
        Some(EventCapability::MessageDelete { id: 1001, channel_id: 7, target: 7 })
    );
}

#[test]
fn updated_message_exposes_content() {
    let e = GatewayEvent::MessageUpdated { content: Some("edited".to_owned()), channel_id: 3 };
    assert_eq!(
        wrap(&e),
        Some(EventCapability::MessageUpdate { content: Some("edited".to_owned()), target: 3 })
    );
}

#[test]
fn update_without_content_stays_absent() {
    // an update that carries no new content wraps to an absent content, not
    // to an empty string
    let e = GatewayEvent::MessageUpdated { content: None, channel_id: 3 };
    assert_eq!(wrap(&e), Some(EventCapability::MessageUpdate { content: None, target: 3 }));
}

#[test]
fn unsupported_kinds_are_never_wrapped() {
    assert_eq!(wrap(&GatewayEvent::Ready), None);
    assert_eq!(wrap(&GatewayEvent::Unsupported), None);
}

#[test]
fn capability_reports_its_bound_target() {
    let c = EventCapability::Message { content: String::new(), target: 12 };
    assert_eq!(c.target(), 12);
    let d = EventCapability::MessageDelete { id: 5, channel_id: 6, target: 6 };
    assert_eq!(d.target(), 6);
}
