use chat_relay::dispatch::{
    distribute_message_to_all, handle, handle_server_message, persist_request, Effect,
};
use chat_relay::message::{Message, MessageType};
use chat_relay::registry::ClientConnection;
use chat_relay::state::AppState;

fn peer(user_id: u64, username: &str, room: &str, room_id: u64) -> ClientConnection {
    ClientConnection {
        addr: format!("10.0.0.{}:5000", user_id),
        username: username.to_string(),
        current_room: room.to_string(),
        room_id,
        user_id,
        connected_at: 1_700_000_000,
    }
}

fn message(kind: MessageType, user_id: u64, body: &str, room: &str, room_id: u64) -> Message {
    Message {
        message_type: kind,
        username: format!("user{}", user_id),
        user_id,
        message: body.to_string(),
        message_id: format!("id-{}", user_id),
        room: room.to_string(),
        room_id,
        created_at: 1_700_000_123,
        is_emoji: false,
    }
}

/// A server with own user 1 in room "A", and peers 2 and 3 in "A", 4 in "B".
fn server() -> AppState {
    let mut state = AppState::new();
    state.is_server = true;
    state.user_id = Some(1);
    state.username = "host".to_string();
    state.registry.enter(1, "A".to_string());
    state.registry.register(peer(2, "bob", "A", 10));
    state.registry.register(peer(3, "cy", "A", 10));
    state.registry.register(peer(4, "dee", "B", 11));
    state
}

fn send(peer: u64, message: &Message) -> Effect {
    Effect::SendToPeer { peer, message: message.clone() }
}

fn notify(message: &Message) -> Effect {
    Effect::Notify { message: message.clone() }
}

fn persist(room_id: i64, user_id: i64, text: &str, kind: &str) -> Effect {
    persist_flagged(room_id, user_id, text, kind, false)
}

fn persist_flagged(room_id: i64, user_id: i64, text: &str, kind: &str, is_emoji: bool) -> Effect {
    Effect::Persist { room_id, user_id, text: text.to_string(), kind: kind.to_string(), is_emoji }
}

#[test]
fn distribute_writes_to_each_peer_of_the_room_then_notifies_once() {
    let state = server();
    let m = message(MessageType::Chat, 9, "hello", "A", 10);
    let effects = distribute_message_to_all(&state, &"A".to_string(), &m, None);
    assert_eq!(effects, vec![send(2, &m), send(3, &m), notify(&m)]);
}

#[test]
fn distribute_leaves_out_the_excluded_user() {
    let state = server();
    let m = message(MessageType::Chat, 2, "hello", "A", 10);
    let effects = distribute_message_to_all(&state, &"A".to_string(), &m, Some(2));
    assert_eq!(effects, vec![send(3, &m), notify(&m)]);
}

#[test]
fn distribute_never_writes_to_the_serving_node_itself() {
    let mut state = server();
    // Even with a connection filed under the server's own id.
    state.registry.register(peer(1, "host", "A", 10));
    let m = message(MessageType::Chat, 2, "hello", "A", 10);
    let effects = distribute_message_to_all(&state, &"A".to_string(), &m, None);
    assert_eq!(effects, vec![send(2, &m), send(3, &m), notify(&m)]);
}

#[test]
fn a_node_that_does_not_serve_has_no_own_id_to_skip() {
    let mut state = server();
    state.is_server = false;
    state.registry.register(peer(1, "host", "A", 10));
    let m = message(MessageType::Chat, 2, "hello", "A", 10);
    let effects = distribute_message_to_all(&state, &"A".to_string(), &m, None);
    assert_eq!(effects, vec![send(2, &m), send(3, &m), send(1, &m), notify(&m)]);
}

#[test]
fn distribute_skips_members_without_a_connection() {
    let mut state = server();
    state.registry.enter(8, "A".to_string());
    let m = message(MessageType::Chat, 2, "hello", "A", 10);
    let effects = distribute_message_to_all(&state, &"A".to_string(), &m, None);
    assert_eq!(effects, vec![send(2, &m), send(3, &m), notify(&m)]);
}

#[test]
fn distribute_to_an_empty_room_still_notifies() {
    let state = server();
    let m = message(MessageType::Chat, 2, "hello", "Nowhere", 99);
    let effects = distribute_message_to_all(&state, &"Nowhere".to_string(), &m, None);
    assert_eq!(effects, vec![notify(&m)]);
}

#[test]
fn persist_request_names_room_user_body_kind_and_flag() {
    let mut m = message(MessageType::Chat, 2, "hello", "A", 10);
    assert_eq!(persist_request(&m), persist_flagged(10, 2, "hello", "Chat", false));
    m.is_emoji = true;
    assert_eq!(persist_request(&m), persist_flagged(10, 2, "hello", "Chat", true));
}

#[test]
fn a_relayed_message_is_stored_once_with_its_own_flag() {
    for (kind, name) in [
        (MessageType::Connect, "Connect"),
        (MessageType::Chat, "Chat"),
        (MessageType::RoomJoin, "RoomJoin"),
    ] {
        for flag in [false, true] {
            let mut state = server();
            let mut m = message(kind, 2, "body", "A", 10);
            m.is_emoji = flag;
            let effects = handle_server_message(&mut state, m);
            let stored: Vec<&Effect> =
                effects.iter().filter(|e| matches!(e, Effect::Persist { .. })).collect();
            assert_eq!(stored, vec![&persist_flagged(10, 2, "body", name, flag)]);
        }
    }
}

#[test]
fn persist_request_wraps_ids_beyond_the_signed_range() {
    let m = message(MessageType::Chat, u64::MAX, "x", "A", 1 << 63);
    assert_eq!(persist_request(&m), persist(i64::MIN, -1, "x", "Chat"));
}

#[test]
fn connect_is_stored_and_goes_to_the_room_without_the_excluded() {
    let mut state = server();
    let m = message(MessageType::Connect, 3, "cy joined the chat", "A", 10);
    let effects = handle(&mut state, m.clone(), Some(3));
    assert_eq!(
        effects,
        vec![persist(10, 3, "cy joined the chat", "Connect"), send(2, &m), notify(&m)]
    );
}

#[test]
fn chat_is_stored_and_goes_to_the_room_without_the_excluded() {
    let mut state = server();
    let m = message(MessageType::Chat, 2, "hi", "A", 10);
    let effects = handle(&mut state, m.clone(), Some(2));
    assert_eq!(effects, vec![persist(10, 2, "hi", "Chat"), send(3, &m), notify(&m)]);
    let effects = handle(&mut state, m.clone(), None);
    assert_eq!(effects, vec![persist(10, 2, "hi", "Chat"), send(2, &m), send(3, &m), notify(&m)]);
}

#[test]
fn room_join_moves_the_user_and_goes_to_all_of_the_new_room() {
    let mut state = server();
    let m = message(MessageType::RoomJoin, 2, "bob joined B", "B", 11);
    // The exclusion that is handed in does not count for a room change.
    let effects = handle(&mut state, m.clone(), Some(2));
    assert_eq!(
        effects,
        vec![persist(11, 2, "bob joined B", "RoomJoin"), send(4, &m), send(2, &m), notify(&m)]
    );
    assert_eq!(state.registry.members_of(&"A".to_string()), vec![1, 3]);
    assert_eq!(state.registry.members_of(&"B".to_string()), vec![4, 2]);
    assert_eq!(state.registry.peer(2), Some(&peer(2, "bob", "B", 11)));
}

#[test]
fn disconnect_is_stored_and_goes_to_the_room_without_its_sender() {
    let mut state = server();
    let m = message(MessageType::Disconnect, 2, "bob left the chat", "A", 10);
    let effects = handle(&mut state, m.clone(), None);
    assert_eq!(
        effects,
        vec![persist(10, 2, "bob left the chat", "Disconnect"), send(3, &m), notify(&m)]
    );
}

#[test]
fn reserved_kinds_do_nothing() {
    for kind in [MessageType::RoomLeave, MessageType::UserList, MessageType::ServerAck] {
        let mut state = server();
        let m = message(kind, 2, "x", "A", 10);
        assert_eq!(handle(&mut state, m, None), vec![]);
        assert_eq!(state.registry.members_of(&"A".to_string()), vec![1, 2, 3]);
    }
}

#[test]
fn a_relayed_chat_is_not_echoed_to_its_sender() {
    let mut state = server();
    let m = message(MessageType::Chat, 2, "hi", "A", 10);
    let effects = handle_server_message(&mut state, m.clone());
    assert_eq!(effects, vec![persist(10, 2, "hi", "Chat"), send(3, &m), notify(&m)]);
}

#[test]
fn a_relayed_connect_goes_to_everybody_in_the_room() {
    let mut state = server();
    let m = message(MessageType::Connect, 2, "bob joined the chat", "A", 10);
    let effects = handle_server_message(&mut state, m.clone());
    assert_eq!(
        effects,
        vec![persist(10, 2, "bob joined the chat", "Connect"), send(2, &m), send(3, &m), notify(&m)]
    );
}

#[test]
fn every_distribution_ends_with_its_only_notice() {
    let state = server();
    for room in ["A", "B", "C"] {
        for excluded in [None, Some(1), Some(2), Some(4)] {
            let m = message(MessageType::Chat, 2, "hi", room, 10);
            let effects = distribute_message_to_all(&state, &room.to_string(), &m, excluded);
            let notices = effects.iter().filter(|e| matches!(e, Effect::Notify { .. })).count();
            assert_eq!(notices, 1);
            assert_eq!(effects.last(), Some(&notify(&m)));
        }
    }
}
