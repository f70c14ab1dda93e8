//! The server role: a node that relays for others and takes part itself.
//!
//! Binding, accepting and reading are the caller's work. It hands over what
//! came of them, one event at a time, and performs the effects that come
//! back.

use vstd::prelude::*;
use vstd::string::StringExecFns;
use crate::dispatch::{
    Effect,
    EffectView,
    Step,
    echo_excluded,
    effect_views,
    handle,
    handle_server_message,
    lemma_after_message_keeps_consistent,
    lemma_recipient_iff,
    persist,
    persist_request,
    send_to,
};
use crate::error::RelayError;
use crate::membership_laws::{
    lemma_leave_all_membership,
    lemma_register_keeps_consistent,
    lemma_unregister_keeps_consistent,
    lemma_unregister_removes,
};
use crate::message::{
    Message,
    MessageType,
    MessageView,
    is_message_id,
    left_text,
    new_message_id,
    server_started_text,
};
use crate::registry::{ClientConnection, ClientConnectionView, RegistryView};
use crate::state::{AppState, AppStateView};
use crate::text::{decimal, to_decimal};

verus! {

/// The port that a server listens on if it is given none.
pub const DEFAULT_PORT: u16 = 3625;

/// The port that a server listens on.
pub open spec fn listen_port(port: Option<u16>) -> u16 {
    match port {
        Some(p) => p,
        None => DEFAULT_PORT,
    }
}

/// The address that a server binds: the given port, or the default one, on
/// all interfaces.
pub fn bind_address(port: Option<u16>) -> (addr: String)
    ensures
        addr@ == "0.0.0.0:"@ + decimal(listen_port(port) as nat),
{
    let port = match port {
        Some(p) => p,
        None => DEFAULT_PORT,
    };
    let digits = to_decimal(port as u64);
    String::from_str("0.0.0.0:").concat(digits.as_str())
}

impl AppStateView {
    /// The state of a node that serves at an address and takes part in a
    /// room under the given name: its user has entered the room, out of
    /// whatever list it stood in, without a connection of its own.
    pub open spec fn serving(
        self,
        server_addr: Seq<char>,
        username: Seq<char>,
        user_id: u64,
        room: Seq<char>,
        room_id: u64,
    ) -> AppStateView {
        AppStateView {
            registry: self.registry.enter(user_id, room),
            client_connected: self.client_connected,
            username,
            user_id: Some(user_id),
            is_server: true,
            current_room: room,
            current_room_id: Some(room_id),
            server_addr: Some(server_addr),
        }
    }

    /// What a peer's record says once the registry has been asked: the room
    /// that the registry has for the user, if it has the user, and the
    /// record's own room otherwise.
    pub open spec fn last_known(self, client: ClientConnectionView) -> ClientConnectionView {
        if self.registry.peers.contains_key(client.user_id) {
            let filed = self.registry.peers[client.user_id];
            client.in_room(filed.current_room, filed.room_id)
        } else {
            client
        }
    }

    /// The state after a peer is gone: its connection dropped, the user in no
    /// room.
    pub open spec fn without_client(self, user_id: u64) -> AppStateView {
        self.with_registry(self.registry.unregister(user_id))
    }

    /// The effects of a peer's departure, given the id of the notice: the
    /// peer's socket is let go, and the notice is stored and goes to those
    /// who remain in the room where the peer was last known to be.
    pub open spec fn departure_effects(
        self,
        client: ClientConnectionView,
        message_id: Seq<char>,
        now: u64,
    ) -> Seq<EffectView> {
        seq![EffectView::Detach { peer: client.user_id }] + self.without_client(
            client.user_id,
        ).handle_effects(farewell(self.last_known(client), message_id, now), None)
    }
}

/// What a server does to announce itself: the announcement is stored, as
/// any message is, and shown to the node's own user interface.
pub open spec fn announce_effects(join: MessageView) -> Seq<EffectView> {
    seq![persist(join), EffectView::Notify { message: join }]
}

/// The notice that a peer has left: "<username> left the chat", in the
/// peer's room.
pub open spec fn farewell(client: ClientConnectionView, message_id: Seq<char>, now: u64) -> MessageView {
    MessageView::notice(
        MessageType::Disconnect,
        client.username,
        client.user_id,
        left_text(client.username),
        message_id,
        client.current_room,
        client.room_id,
        now,
    )
}

/// Makes the node a server that takes part in the announcement's room, and
/// announces it.
///
/// The node's session takes name, user and room from the announcement. The
/// user enters the room without a connection, so that the room counts it
/// while nothing is ever written to it: it leaves every list that it stood
/// in, from an earlier start or otherwise, and is afterwards in the room's
/// list, once, and in no other.
pub fn start_server(state: &mut AppState, server_addr: String, join: Message) -> (effects: Vec<
    Effect,
>)
    ensures
        final(state)@ == old(state)@.serving(
            server_addr@,
            join@.username,
            join@.user_id,
            join@.room,
            join@.room_id,
        ),
        effect_views(effects@) == announce_effects(join@),
        final(state)@.registry.only_in(join@.user_id, join@.room),
        old(state)@.registry.consistent() ==> final(state)@.registry.consistent(),
{
    state.server_addr = Some(server_addr);
    state.username = join.username.clone();
    state.user_id = Some(join.user_id);
    state.is_server = true;
    state.current_room = join.room.clone();
    state.current_room_id = Some(join.room_id);
    state.registry.enter(join.user_id, join.room.clone());
    let mut effects: Vec<Effect> = Vec::new();
    effects.push(persist_request(&join));
    effects.push(Effect::Notify { message: join });
    effects
}

/// Starts the server role, once the caller has tried to bind the listening
/// socket.
///
/// `bound_addr` is the address that the socket got, or `None` if it could not
/// be bound. Without a socket the call fails with `BindError` and the state
/// stays as it was. With one, the node becomes a server and a participant of
/// `room`, and announces itself with a message that carries a fresh id; the
/// caller then accepts connections and runs one handler for each.
pub fn server_listen_as_participant(
    state: &mut AppState,
    bound_addr: Option<String>,
    username: String,
    user_id: u64,
    room: String,
    room_id: u64,
    now: u64,
) -> (started: Result<Vec<Effect>, RelayError>)
    ensures
        match started {
            Err(e) => {
                &&& bound_addr.is_none()
                &&& e == RelayError::BindError
                &&& *final(state) == *old(state)
            },
            Ok(effects) => {
                &&& bound_addr.is_some()
                &&& final(state)@ == old(state)@.serving(
                    bound_addr.unwrap()@,
                    username@,
                    user_id,
                    room@,
                    room_id,
                )
                &&& final(state)@.registry.only_in(user_id, room@)
                &&& old(state)@.registry.consistent() ==> final(state)@.registry.consistent()
                &&& exists|id: Seq<char>|
                    is_message_id(id) && effect_views(effects@) == announce_effects(
                        MessageView::notice(
                            MessageType::Connect,
                            username@,
                            user_id,
                            server_started_text(username@),
                            id,
                            room@,
                            room_id,
                            now,
                        ),
                    )
            },
        },
{
    match bound_addr {
        None => Err(RelayError::BindError),
        Some(server_addr) => {
            let id = new_message_id();
            let join = Message::server_started(username, user_id, id, room, room_id, now);
            let effects = start_server(state, server_addr, join);
            assert(effect_views(effects@) == announce_effects(
                MessageView::notice(
                    MessageType::Connect,
                    username@,
                    user_id,
                    server_started_text(username@),
                    id@,
                    room@,
                    room_id,
                    now,
                ),
            ));
            Ok(effects)
        },
    }
}

/// Sends a chat message of the serving node itself: it is stored and goes to
/// everybody in the room, nobody left out, and to the node's own user
/// interface. The message carries the session's username and a fresh id.
pub fn send_as_server_participant(
    state: &mut AppState,
    message: String,
    user_id: u64,
    room: String,
    room_id: u64,
    is_emoji: bool,
    now: u64,
) -> (effects: Vec<Effect>)
    ensures
        final(state)@ == old(state)@,
        exists|id: Seq<char>|
            is_message_id(id) && effect_views(effects@) == old(state)@.handle_effects(
                MessageView::chat(
                    old(state)@.username,
                    user_id,
                    message@,
                    id,
                    room@,
                    room_id,
                    now,
                    is_emoji,
                ),
                None,
            ),
{
    let id = new_message_id();
    let chat = Message::chat(
        state.username.clone(),
        user_id,
        message,
        id,
        room,
        room_id,
        now,
        is_emoji,
    );
    let effects = handle(state, chat, None);
    assert(effect_views(effects@) == old(state)@.handle_effects(
        MessageView::chat(old(state)@.username, user_id, message@, id@, room@, room_id, now, is_emoji),
        None,
    ));
    effects
}

/// The state that one connection handler keeps between two frames.
pub struct ConnectionHandler {
    /// The address of the peer at the other end, as text.
    pub peer_addr: String,
    /// The peer that registered over this socket, once it has.
    pub client: Option<ClientConnection>,
}

/// A handler's state as a mathematical value.
pub struct ConnectionHandlerView {
    pub peer_addr: Seq<char>,
    pub client: Option<ClientConnectionView>,
}

impl View for ConnectionHandler {
    type V = ConnectionHandlerView;

    open spec fn view(&self) -> ConnectionHandlerView {
        ConnectionHandlerView {
            peer_addr: self.peer_addr@,
            client: match self.client {
                Some(c) => Some(c@),
                None => None,
            },
        }
    }
}

impl ConnectionHandler {
    /// The handler of a socket that was just accepted: nobody has registered
    /// over it yet.
    pub fn new(peer_addr: String) -> (handler: ConnectionHandler)
        ensures
            handler@ == (ConnectionHandlerView { peer_addr: peer_addr@, client: None }),
    {
        ConnectionHandler { peer_addr, client: None }
    }
}

impl ConnectionHandlerView {
    /// The record of the peer that a `Connect` message registers.
    pub open spec fn newcomer(self, message: MessageView, now: u64) -> ClientConnectionView {
        ClientConnectionView {
            addr: self.peer_addr,
            username: message.username,
            current_room: message.room,
            room_id: message.room_id,
            user_id: message.user_id,
            connected_at: now,
        }
    }

    /// Whether a message registers its sender: a `Connect` on a socket over
    /// which nobody has registered yet.
    pub open spec fn registers(self, message: MessageView) -> bool {
        message.message_type == MessageType::Connect && self.client.is_none()
    }

    /// Whether a message ends the registration that was made over this
    /// socket: a `Disconnect` on a socket over which somebody has registered.
    pub open spec fn unregisters(self, message: MessageView) -> bool {
        message.message_type == MessageType::Disconnect && self.client.is_some()
    }

    /// The handler after a message has come in.
    pub open spec fn after_frame(self, message: MessageView, now: u64) -> ConnectionHandlerView {
        if self.registers(message) {
            ConnectionHandlerView {
                peer_addr: self.peer_addr,
                client: Some(self.newcomer(message, now)),
            }
        } else if self.unregisters(message) {
            ConnectionHandlerView { peer_addr: self.peer_addr, client: None }
        } else {
            self
        }
    }

    /// The handler after its socket has failed.
    pub open spec fn closed(self) -> ConnectionHandlerView {
        ConnectionHandlerView { peer_addr: self.peer_addr, client: None }
    }
}

impl AppStateView {
    /// What is done about the socket before a message is dispatched: it is
    /// filed under the user that the message registers, or what is filed
    /// under the user that the message removes is dropped.
    pub open spec fn socket_effects(
        self,
        handler: ConnectionHandlerView,
        message: MessageView,
    ) -> Seq<EffectView> {
        if handler.registers(message) {
            seq![EffectView::Attach { peer: message.user_id }]
        } else if handler.unregisters(message) {
            seq![EffectView::Detach { peer: handler.client.unwrap().user_id }]
        } else {
            Seq::empty()
        }
    }

    /// The registry change that a message makes before it is dispatched: a
    /// first `Connect` registers its sender, a `Disconnect` removes the peer
    /// that registered over the socket.
    pub open spec fn admitted(
        self,
        handler: ConnectionHandlerView,
        message: MessageView,
        now: u64,
    ) -> AppStateView {
        if handler.registers(message) {
            self.with_registry(self.registry.register(handler.newcomer(message, now)))
        } else if handler.unregisters(message) {
            self.without_client(handler.client.unwrap().user_id)
        } else {
            self
        }
    }
}

/// A step of a connection handler keeps a consistent registry consistent.
pub proof fn lemma_frame_keeps_consistent(
    s: AppStateView,
    handler: ConnectionHandlerView,
    message: MessageView,
    now: u64,
)
    requires
        s.registry.consistent(),
    ensures
        s.admitted(handler, message, now).after_message(message).registry.consistent(),
{
    if handler.registers(message) {
        lemma_register_keeps_consistent(s.registry, handler.newcomer(message, now));
    } else if handler.unregisters(message) {
        lemma_unregister_keeps_consistent(s.registry, handler.client.unwrap().user_id);
    }
    lemma_after_message_keeps_consistent(s.admitted(handler, message, now), message);
}

/// After a peer's departure the registry lists the user in no room and has
/// no connection for it, and the notice of the departure is written to
/// everybody else with a connection in the room where the peer was last
/// known to be, the serving node aside, and never to the peer itself.
pub proof fn lemma_departure(
    s: AppStateView,
    client: ClientConnectionView,
    message_id: Seq<char>,
    now: u64,
    user_id: u64,
)
    ensures
        !s.without_client(client.user_id).registry.peers.contains_key(client.user_id),
        forall|room: Seq<char>| !s.without_client(client.user_id).registry.is_member(
            client.user_id,
            room,
        ),
        s.departure_effects(client, message_id, now).contains(
            EffectView::SendToPeer {
                peer: user_id,
                message: farewell(s.last_known(client), message_id, now),
            },
        ) <==> {
            &&& user_id != client.user_id
            &&& s.registry.is_member(user_id, s.last_known(client).current_room)
            &&& s.registry.peers.contains_key(user_id)
            &&& !(s.is_server && s.user_id == Some(user_id))
        },
{
    let after = s.without_client(client.user_id);
    let bye = farewell(s.last_known(client), message_id, now);
    let room = s.last_known(client).current_room;
    assert forall|r: Seq<char>| !after.registry.is_member(client.user_id, r) by {
        lemma_unregister_removes(s.registry, client.user_id, r);
    }
    lemma_unregister_removes(s.registry, client.user_id, room);
    let excluded = Some(client.user_id);
    let recipients = after.recipients(room, excluded);
    let fan_out = after.distribute(room, bye, excluded);
    let effects = s.departure_effects(client, message_id, now);
    let wanted = EffectView::SendToPeer { peer: user_id, message: bye };
    assert(effects == seq![EffectView::Detach { peer: client.user_id }] + (seq![persist(bye)]
        + fan_out));
    lemma_recipient_iff(after, room, excluded, user_id);
    lemma_leave_all_membership(
        RegistryView { peers: s.registry.peers.remove(client.user_id), rooms: s.registry.rooms },
        client.user_id,
        user_id,
        room,
    );
    if effects.contains(wanted) {
        // The first two effects are no writes: it is one of the fan-out.
        let i = choose|i: int| 0 <= i < effects.len() && effects[i] == wanted;
        assert(recipients[i - 2] == user_id);
    }
    if recipients.contains(user_id) {
        let j = choose|j: int| 0 <= j < recipients.len() && recipients[j] == user_id;
        assert(effects[j + 2] == wanted);
    }
}

/// Cleans up after a peer that is gone, with a notice that carries the given
/// id.
///
/// The peer's connection is dropped, its socket let go, and the user leaves
/// every room. The notice, "<username> left the chat", is stored and goes to
/// those who remain in the room where the registry last had the peer; the
/// peer itself gets nothing.
pub fn dismiss_client(
    state: &mut AppState,
    client: &ClientConnection,
    message_id: String,
    now: u64,
) -> (effects: Vec<Effect>)
    ensures
        final(state)@ == old(state)@.without_client(client.user_id),
        effect_views(effects@) == old(state)@.departure_effects(client@, message_id@, now),
        old(state)@.registry.consistent() ==> final(state)@.registry.consistent(),
{
    let bye = match state.registry.peer(client.user_id) {
        Some(filed) => Message::left(
            client.username.clone(),
            client.user_id,
            message_id,
            filed.current_room.clone(),
            filed.room_id,
            now,
        ),
        None => Message::left(
            client.username.clone(),
            client.user_id,
            message_id,
            client.current_room.clone(),
            client.room_id,
            now,
        ),
    };
    state.registry.unregister(client.user_id);
    let mut effects: Vec<Effect> = Vec::new();
    effects.push(Effect::Detach { peer: client.user_id });
    let mut rest = handle(state, bye, None);
    let ghost told = rest@;
    effects.append(&mut rest);
    assert(effect_views(effects@) =~= seq![EffectView::Detach { peer: client.user_id }]
        + effect_views(told));
    effects
}

/// Cleans up after a peer whose socket has failed, as [`dismiss_client`]
/// does, with a notice that carries a fresh id.
pub fn clean_client(state: &mut AppState, client: &ClientConnection, now: u64) -> (effects: Vec<
    Effect,
>)
    ensures
        final(state)@ == old(state)@.without_client(client.user_id),
        old(state)@.registry.consistent() ==> final(state)@.registry.consistent(),
        exists|id: Seq<char>|
            is_message_id(id) && effect_views(effects@) == old(state)@.departure_effects(
                client@,
                id,
                now,
            ),
{
    let id = new_message_id();
    dismiss_client(state, client, id, now)
}

/// One step of the handler of an accepted socket.
///
/// `inbound` is what the caller's attempt to read one frame came to: the
/// message, or why there is none.
///
/// A message: a `Connect` registers its sender, if nobody has registered
/// over this socket yet, and the socket is filed under that user; a
/// `Disconnect` removes the peer that has, and lets its socket go. After that
/// every message, the first included, goes to the dispatcher, and the handler
/// goes on.
///
/// No message, for whatever reason: the handler ends. If a peer had
/// registered over the socket, it is cleaned up as [`clean_client`] says.
///
/// A consistent registry stays consistent.
pub fn handle_client_connection(
    state: &mut AppState,
    handler: &mut ConnectionHandler,
    inbound: Result<Message, RelayError>,
    now: u64,
) -> (step: Step)
    ensures
        match inbound {
            Ok(message) => {
                let admitted = old(state)@.admitted(old(handler)@, message@, now);
                &&& step.proceed
                &&& final(handler)@ == old(handler)@.after_frame(message@, now)
                &&& final(state)@ == admitted.after_message(message@)
                &&& effect_views(step.effects@) == old(state)@.socket_effects(
                    old(handler)@,
                    message@,
                ) + admitted.handle_effects(message@, echo_excluded(message@))
                &&& old(state)@.registry.consistent() ==> final(state)@.registry.consistent()
            },
            Err(_) => {
                &&& !step.proceed
                &&& final(handler)@ == old(handler)@.closed()
                &&& old(state)@.registry.consistent() ==> final(state)@.registry.consistent()
                &&& match old(handler)@.client {
                    Some(client) => {
                        &&& final(state)@ == old(state)@.without_client(client.user_id)
                        &&& exists|id: Seq<char>|
                            is_message_id(id) && effect_views(step.effects@) == old(
                                state,
                            )@.departure_effects(client, id, now)
                    },
                    None => {
                        &&& *final(state) == *old(state)
                        &&& step.effects@.len() == 0
                    },
                }
            },
        },
{
    match inbound {
        Ok(message) => {
            proof {
                if state@.registry.consistent() {
                    lemma_frame_keeps_consistent(state@, handler@, message@, now);
                }
            }
            let registered = handler.client.is_some();
            let mut effects: Vec<Effect> = Vec::new();
            match message.message_type {
                MessageType::Connect => {
                    if !registered {
                        let conn = ClientConnection {
                            addr: handler.peer_addr.clone(),
                            username: message.username.clone(),
                            current_room: message.room.clone(),
                            room_id: message.room_id,
                            user_id: message.user_id,
                            connected_at: now,
                        };
                        state.registry.register(conn.clone());
                        handler.client = Some(conn);
                        effects.push(Effect::Attach { peer: message.user_id });
                    }
                },
                MessageType::Disconnect => {
                    match &handler.client {
                        Some(client) => {
                            state.registry.unregister(client.user_id);
                            effects.push(Effect::Detach { peer: client.user_id });
                        },
                        None => {},
                    }
                    handler.client = None;
                },
                _ => {},
            }
            let mut rest = handle_server_message(state, message);
            effects.append(&mut rest);
            Step { effects, proceed: true }
        },
        Err(_) => {
            proof {
                if state@.registry.consistent() && handler@.client.is_some() {
                    lemma_unregister_keeps_consistent(
                        state@.registry,
                        handler@.client.unwrap().user_id,
                    );
                }
            }
            let gone = handler.client.take();
            match gone {
                Some(client) => {
                    let effects = clean_client(state, &client, now);
                    Step { effects, proceed: false }
                },
                None => Step { effects: Vec::new(), proceed: false },
            }
        },
    }
}

} // verus!
