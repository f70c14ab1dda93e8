use chat_relay::client::{
    client_connect, client_connect_to_server, open_client_session, post_chat, send,
    send_as_client, start_client_listener,
};
use chat_relay::dispatch::Effect;
use chat_relay::error::RelayError;
use chat_relay::message::{Message, MessageType};
use chat_relay::state::AppState;

const NOW: u64 = 1_700_000_700;

fn is_message_id(id: &str) -> bool {
    id.len() == 36
        && id.chars().enumerate().all(|(i, c)| {
            if i == 8 || i == 13 || i == 18 || i == 23 {
                c == '-'
            } else {
                c.is_ascii_digit() || ('a'..='f').contains(&c)
            }
        })
}

fn only_message(effects: &[Effect]) -> Message {
    assert_eq!(effects.len(), 1);
    match &effects[0] {
        Effect::SendToServer { message } => message.clone(),
        other => panic!("unexpected effect {:?}", other),
    }
}

#[test]
fn connecting_makes_the_node_a_client_and_sends_the_join() {
    let mut state = AppState::new();
    state.is_server = true;
    let effects =
        client_connect_to_server(&mut state, "bob".to_string(), 2, "Company Wide".to_string(), 1, NOW);
    assert!(state.client_connected);
    assert!(!state.is_server);
    assert_eq!(state.username, "bob");
    assert_eq!(state.user_id, Some(2));
    assert_eq!(state.current_room, "Company Wide");
    assert_eq!(state.current_room_id, Some(1));

    let hello = only_message(&effects);
    assert_eq!(hello.message_type, MessageType::Connect);
    assert_eq!(hello.username, "bob");
    assert_eq!(hello.user_id, 2);
    assert_eq!(hello.message, "\u{1F535} bob joined the chat");
    assert_eq!(hello.room, "Company Wide");
    assert_eq!(hello.room_id, 1);
    assert_eq!(hello.created_at, NOW);
    assert!(!hello.is_emoji);
    assert!(is_message_id(&hello.message_id));
}

#[test]
fn the_plain_connect_sends_the_plain_join() {
    let mut state = AppState::new();
    let effects = client_connect(&mut state, "bob".to_string(), 2, "A".to_string(), 10, NOW);
    let hello = only_message(&effects);
    assert_eq!(hello.message, "bob joined the chat");
    assert_eq!(hello.message_type, MessageType::Connect);
    assert!(state.client_connected);
    assert_eq!(state.current_room_id, Some(10));
}

#[test]
fn open_client_session_with_a_given_join() {
    let mut state = AppState::new();
    let hello = Message::joined("bob".to_string(), 2, "the-id".to_string(), "A".to_string(), 10, NOW, false);
    let effects = open_client_session(&mut state, hello.clone());
    assert_eq!(effects, vec![Effect::SendToServer { message: hello }]);
    assert_eq!(state.username, "bob");
}

#[test]
fn join_messages() {
    let plain = Message::joined("bob".to_string(), 2, "i".to_string(), "A".to_string(), 10, 5, false);
    let marked = Message::joined("bob".to_string(), 2, "i".to_string(), "A".to_string(), 10, 5, true);
    assert_eq!(plain.message, "bob joined the chat");
    assert_eq!(marked.message, "\u{1F535} bob joined the chat");
    let left = Message::left("bob".to_string(), 2, "i".to_string(), "A".to_string(), 10, 5);
    assert_eq!(left.message, "bob left the chat");
    assert_eq!(left.message_type, MessageType::Disconnect);
    let empty = Message::left(String::new(), 2, "i".to_string(), "A".to_string(), 10, 5);
    assert_eq!(empty.message, " left the chat");
}

#[test]
fn chat_message_keeps_every_field() {
    let chat = Message::chat(
        "bob".to_string(),
        2,
        "hi".to_string(),
        "the-id".to_string(),
        "A".to_string(),
        10,
        5,
        true,
    );
    assert_eq!(
        chat,
        Message {
            message_type: MessageType::Chat,
            username: "bob".to_string(),
            user_id: 2,
            message: "hi".to_string(),
            message_id: "the-id".to_string(),
            room: "A".to_string(),
            room_id: 10,
            created_at: 5,
            is_emoji: true,
        }
    );
    assert_eq!(chat.clone(), chat);
}

#[test]
fn send_without_a_connection_fails_and_gives_nothing_to_write() {
    let state = AppState::new();
    let sent = send(&state, "hi".to_string(), 2, "A".to_string(), 10, false, NOW);
    assert_eq!(sent, Err(RelayError::NotConnected));
    let sent = send_as_client(&state, "hi".to_string(), 2, "A".to_string(), 10, false, NOW);
    assert_eq!(sent, Err(RelayError::NotConnected));
    assert_eq!(RelayError::NotConnected.describe(), "Not connected to server");
}

#[test]
fn send_writes_to_the_server_and_shows_the_message_at_once() {
    let mut state = AppState::new();
    client_connect(&mut state, "bob".to_string(), 2, "A".to_string(), 10, NOW);
    let effects = send(&state, "hi".to_string(), 2, "A".to_string(), 10, true, NOW + 1).unwrap();
    assert_eq!(effects.len(), 2);
    let chat = match &effects[0] {
        Effect::SendToServer { message } => message.clone(),
        other => panic!("unexpected effect {:?}", other),
    };
    assert_eq!(effects[1], Effect::Notify { message: chat.clone() });
    assert_eq!(chat.message_type, MessageType::Chat);
    assert_eq!(chat.username, "bob");
    assert_eq!(chat.user_id, 2);
    assert_eq!(chat.message, "hi");
    assert_eq!(chat.room, "A");
    assert_eq!(chat.room_id, 10);
    assert_eq!(chat.created_at, NOW + 1);
    assert!(chat.is_emoji);
    assert!(is_message_id(&chat.message_id));
}

#[test]
fn post_chat_with_a_given_message() {
    let mut state = AppState::new();
    let chat = Message::chat("bob".into(), 2, "hi".into(), "the-id".into(), "A".into(), 10, 5, false);
    assert_eq!(post_chat(&state, chat.clone()), Err(RelayError::NotConnected));
    state.client_connected = true;
    assert_eq!(
        post_chat(&state, chat.clone()),
        Ok(vec![
            Effect::SendToServer { message: chat.clone() },
            Effect::Notify { message: chat },
        ])
    );
}

#[test]
fn a_frame_from_the_server_is_shown() {
    let chat = Message::chat("cy".into(), 3, "yo".into(), "the-id".into(), "A".into(), 10, 5, false);
    let step = start_client_listener(Ok(chat.clone()));
    assert!(step.proceed);
    assert_eq!(step.effects, vec![Effect::Notify { message: chat }]);
}

#[test]
fn a_failed_read_reports_the_lost_connection_and_ends_the_loop() {
    for failure in [
        RelayError::ConnectionClosed,
        RelayError::MalformedFrame,
        RelayError::FrameTooLarge(20_000_000),
    ] {
        let step = start_client_listener(Err(failure));
        assert!(!step.proceed);
        assert_eq!(step.effects, vec![Effect::ConnectionLost]);
    }
}
