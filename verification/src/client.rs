//! The client role: a node that is connected to a server.
//!
//! Connecting, writing and reading are the caller's work. The functions here
//! say what the session becomes and what is to be written and shown.

use vstd::prelude::*;
use crate::dispatch::{Effect, EffectView, Step, effect_views};
use crate::error::RelayError;
use crate::message::{
    Message,
    MessageType,
    MessageView,
    is_message_id,
    joined_text,
    marked_joined_text,
    new_message_id,
};
use crate::state::{AppState, AppStateView};

verus! {

impl AppStateView {
    /// The state of a node that has joined a server with the given message:
    /// a client, connected, with the message's name, user and room.
    pub open spec fn joined(self, hello: MessageView) -> AppStateView {
        AppStateView {
            registry: self.registry,
            client_connected: true,
            username: hello.username,
            user_id: Some(hello.user_id),
            is_server: false,
            current_room: hello.room,
            current_room_id: Some(hello.room_id),
            server_addr: self.server_addr,
        }
    }
}

/// What sending a chat message as a client comes to: the message is written
/// to the server and, since the server does not send it back, shown to the
/// node's own user interface at once.
pub open spec fn chat_effects(chat: MessageView) -> Seq<EffectView> {
    seq![EffectView::SendToServer { message: chat }, EffectView::Notify { message: chat }]
}

/// The message with which a client joins, as [`client_connect_to_server`]
/// (with the mark) and [`client_connect`] (without) write it.
pub open spec fn hello(
    username: Seq<char>,
    user_id: u64,
    message_id: Seq<char>,
    room: Seq<char>,
    room_id: u64,
    now: u64,
    marked: bool,
) -> MessageView {
    MessageView::notice(
        MessageType::Connect,
        username,
        user_id,
        if marked {
            marked_joined_text(username)
        } else {
            joined_text(username)
        },
        message_id,
        room,
        room_id,
        now,
    )
}

/// Makes the node a client of the server that the caller has connected to,
/// and has it join with the given message, which is the first to be written
/// to the new connection.
pub fn open_client_session(state: &mut AppState, hello: Message) -> (effects: Vec<Effect>)
    ensures
        final(state)@ == old(state)@.joined(hello@),
        effect_views(effects@) == seq![EffectView::SendToServer { message: hello@ }],
{
    state.username = hello.username.clone();
    state.user_id = Some(hello.user_id);
    state.current_room = hello.room.clone();
    state.current_room_id = Some(hello.room_id);
    state.is_server = false;
    state.client_connected = true;
    let mut effects: Vec<Effect> = Vec::new();
    effects.push(Effect::SendToServer { message: hello });
    effects
}

fn client_connect_internal(
    state: &mut AppState,
    username: String,
    user_id: u64,
    room: String,
    room_id: u64,
    now: u64,
    marked: bool,
) -> (effects: Vec<Effect>)
    ensures
        exists|id: Seq<char>|
            is_message_id(id) && final(state)@ == old(state)@.joined(
                #[trigger] hello(username@, user_id, id, room@, room_id, now, marked),
            ) && effect_views(effects@) == seq![
                EffectView::SendToServer {
                    message: hello(username@, user_id, id, room@, room_id, now, marked),
                },
            ],
{
    let id = new_message_id();
    let first = Message::joined(username, user_id, id, room, room_id, now, marked);
    assert(first@ == hello(username@, user_id, id@, room@, room_id, now, marked));
    open_client_session(state, first)
}

/// Starts the client role, once the caller has connected to a server.
///
/// The session becomes that of a connected client with the given name, user
/// and room. The one effect is the write of the join message, "<username>
/// joined the chat" with a blue mark in front and a fresh id. After it the
/// caller reads frames from the server and hands each to
/// [`start_client_listener`].
pub fn client_connect_to_server(
    state: &mut AppState,
    username: String,
    user_id: u64,
    room: String,
    room_id: u64,
    now: u64,
) -> (effects: Vec<Effect>)
    ensures
        exists|id: Seq<char>|
            is_message_id(id) && final(state)@ == old(state)@.joined(
                #[trigger] hello(username@, user_id, id, room@, room_id, now, true),
            ) && effect_views(effects@) == seq![
                EffectView::SendToServer {
                    message: hello(username@, user_id, id, room@, room_id, now, true),
                },
            ],
{
    client_connect_internal(state, username, user_id, room, room_id, now, true)
}

/// Starts the client role as [`client_connect_to_server`] does, with the
/// plain join message "<username> joined the chat".
pub fn client_connect(
    state: &mut AppState,
    username: String,
    user_id: u64,
    room: String,
    room_id: u64,
    now: u64,
) -> (effects: Vec<Effect>)
    ensures
        exists|id: Seq<char>|
            is_message_id(id) && final(state)@ == old(state)@.joined(
                #[trigger] hello(username@, user_id, id, room@, room_id, now, false),
            ) && effect_views(effects@) == seq![
                EffectView::SendToServer {
                    message: hello(username@, user_id, id, room@, room_id, now, false),
                },
            ],
{
    client_connect_internal(state, username, user_id, room, room_id, now, false)
}

/// Sends a finished chat message to the server, if the node is connected to
/// one, and fails with `NotConnected`, with nothing to write or show, if it
/// is not.
pub fn post_chat(state: &AppState, chat: Message) -> (posted: Result<Vec<Effect>, RelayError>)
    ensures
        match posted {
            Ok(effects) => state@.client_connected && effect_views(effects@) == chat_effects(
                chat@,
            ),
            Err(e) => !state@.client_connected && e == RelayError::NotConnected,
        },
{
    if !state.client_connected {
        return Err(RelayError::NotConnected);
    }
    let mut effects: Vec<Effect> = Vec::new();
    effects.push(Effect::SendToServer { message: chat.clone() });
    effects.push(Effect::Notify { message: chat });
    Ok(effects)
}

/// Sends a chat message as a client.
///
/// The message carries the session's username, the given user, room and
/// time, and a fresh id. It fails with `NotConnected` if the node holds no
/// connection to a server; nothing is written or shown then.
pub fn send_as_client(
    state: &AppState,
    message: String,
    user_id: u64,
    room: String,
    room_id: u64,
    is_emoji: bool,
    now: u64,
) -> (sent: Result<Vec<Effect>, RelayError>)
    ensures
        match sent {
            Ok(effects) => state@.client_connected && exists|id: Seq<char>|
                is_message_id(id) && effect_views(effects@) == chat_effects(
                    MessageView::chat(
                        state@.username,
                        user_id,
                        message@,
                        id,
                        room@,
                        room_id,
                        now,
                        is_emoji,
                    ),
                ),
            Err(e) => !state@.client_connected && e == RelayError::NotConnected,
        },
{
    let id = new_message_id();
    let chat = Message::chat(
        state.username.clone(),
        user_id,
        message,
        id,
        room,
        room_id,
        now,
        is_emoji,
    );
    match post_chat(state, chat) {
        Ok(effects) => {
            assert(effect_views(effects@) == chat_effects(
                MessageView::chat(
                    state@.username,
                    user_id,
                    message@,
                    id@,
                    room@,
                    room_id,
                    now,
                    is_emoji,
                ),
            ));
            Ok(effects)
        },
        Err(e) => Err(e),
    }
}

/// Sends a chat message over the node's outbound connection, as
/// [`send_as_client`] does.
pub fn send(
    state: &AppState,
    message: String,
    user_id: u64,
    room: String,
    room_id: u64,
    is_emoji: bool,
    now: u64,
) -> (sent: Result<Vec<Effect>, RelayError>)
    ensures
        match sent {
            Ok(effects) => state@.client_connected && exists|id: Seq<char>|
                is_message_id(id) && effect_views(effects@) == chat_effects(
                    MessageView::chat(
                        state@.username,
                        user_id,
                        message@,
                        id,
                        room@,
                        room_id,
                        now,
                        is_emoji,
                    ),
                ),
            Err(e) => !state@.client_connected && e == RelayError::NotConnected,
        },
{
    send_as_client(state, message, user_id, room, room_id, is_emoji, now)
}

/// What an attempt to read a message came to, as a mathematical value.
pub open spec fn inbound_view(inbound: Result<Message, RelayError>) -> Result<
    MessageView,
    RelayError,
> {
    match inbound {
        Ok(message) => Ok(message@),
        Err(e) => Err(e),
    }
}

/// What the client's read loop makes of one attempt to read a message: the
/// effects, and whether the loop goes on.
pub open spec fn listener_step(inbound: Result<MessageView, RelayError>) -> (Seq<EffectView>, bool) {
    match inbound {
        Ok(message) => (seq![EffectView::Notify { message }], true),
        Err(_) => (seq![EffectView::ConnectionLost], false),
    }
}

/// One step of the client's read loop.
///
/// A message that came in is shown to the node's own user interface, and the
/// loop goes on. If the read failed, for whatever reason, the user interface
/// is told that the connection is lost and the loop ends: nothing here tries
/// to connect again.
pub fn start_client_listener(inbound: Result<Message, RelayError>) -> (step: Step)
    ensures
        (effect_views(step.effects@), step.proceed) == listener_step(inbound_view(inbound)),
{
    let mut effects: Vec<Effect> = Vec::new();
    match inbound {
        Ok(message) => {
            effects.push(Effect::Notify { message });
            Step { effects, proceed: true }
        },
        Err(_) => {
            effects.push(Effect::ConnectionLost);
            Step { effects, proceed: false }
        },
    }
}

} // verus!
