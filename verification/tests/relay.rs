use broker::{relay_step, CoreNotification, MessageEntity, MessageState, RelayAction, StateMutation};

fn message(content: &str, timestamp: u64) -> MessageEntity {
    MessageEntity { sender: "npub-peer".to_string(), content: content.to_string(), timestamp }
}

#[test]
fn a_new_message_becomes_one_append() {
    let action = relay_step(Some(CoreNotification::NewMessage(message("hello", 42))));
    assert_eq!(
        action,
        RelayAction::Mutate(StateMutation::AppendMessage {
            message: MessageState {
                sender: "npub-peer".to_string(),
                content: "hello".to_string(),
                timestamp: 42,
            },
        })
    );
}

#[test]
fn the_relay_stops_when_the_notifications_are_exhausted() {
    assert_eq!(relay_step(None), RelayAction::Stop);
}

#[test]
fn the_relay_keeps_nothing_between_turns() {
    let first = relay_step(Some(CoreNotification::NewMessage(message("one", 1))));
    let second = relay_step(Some(CoreNotification::NewMessage(message("two", 2))));
    let again = relay_step(Some(CoreNotification::NewMessage(message("one", 1))));
    assert_eq!(first, again);
    assert_ne!(first, second);
}
