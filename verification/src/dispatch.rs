//! The broadcast dispatcher: which peers a message goes to, and what else a
//! message sets off.
//!
//! Nothing here writes to a socket or a database. Each function hands back
//! the effects that its caller is to perform, in order.

use vstd::prelude::*;
use vstd::string::StringExecFns;
use crate::membership_laws::lemma_move_room_keeps_consistent;
use crate::message::{Message, MessageType, MessageView};
use crate::state::{AppState, AppStateView};

verus! {

/// One thing that the caller of the relay core is to do.
#[derive(Debug, PartialEq, Eq)]
pub enum Effect {
    /// File the write half of the socket that the event came over under this
    /// user, in place of what was filed there: writes to the user go to it
    /// from now on. The read half stays with the socket's handler.
    Attach { peer: u64 },
    /// Drop the write half that is filed under this user.
    Detach { peer: u64 },
    /// Store a message. This is best effort and nobody waits for it: a
    /// failure is logged and has no other consequence.
    Persist { room_id: i64, user_id: i64, text: String, kind: String, is_emoji: bool },
    /// Write the message, framed, to the write half that is filed under a
    /// peer. The write waits for that peer's own lock and holds it. A failure
    /// is logged, and the effects that follow are performed all the same.
    SendToPeer { peer: u64, message: Message },
    /// Write the message, framed, to the server that the node is connected
    /// to. If the write fails, the effects that follow are dropped and the
    /// failure goes to whoever asked for the send.
    SendToServer { message: Message },
    /// Hand the message to the node's own user interface, as a `message`
    /// event.
    Notify { message: Message },
    /// Tell the node's own user interface that the connection to the server
    /// is gone, as a `connection_lost` event.
    ConnectionLost,
}

/// What a read loop is to do after one attempt to read a frame.
pub struct Step {
    /// The effects to perform, in order.
    pub effects: Vec<Effect>,
    /// Whether to read the next frame. If not, the loop ends.
    pub proceed: bool,
}

/// An effect as a mathematical value.
pub enum EffectView {
    Attach { peer: u64 },
    Detach { peer: u64 },
    Persist { room_id: i64, user_id: i64, text: Seq<char>, kind: Seq<char>, is_emoji: bool },
    SendToPeer { peer: u64, message: MessageView },
    SendToServer { message: MessageView },
    Notify { message: MessageView },
    ConnectionLost,
}

impl View for Effect {
    type V = EffectView;

    open spec fn view(&self) -> EffectView {
        match self {
            Effect::Attach { peer } => EffectView::Attach { peer: *peer },
            Effect::Detach { peer } => EffectView::Detach { peer: *peer },
            Effect::Persist { room_id, user_id, text, kind, is_emoji } => EffectView::Persist {
                room_id: *room_id,
                user_id: *user_id,
                text: text@,
                kind: kind@,
                is_emoji: *is_emoji,
            },
            Effect::SendToPeer { peer, message } => EffectView::SendToPeer {
                peer: *peer,
                message: message@,
            },
            Effect::SendToServer { message } => EffectView::SendToServer { message: message@ },
            Effect::Notify { message } => EffectView::Notify { message: message@ },
            Effect::ConnectionLost => EffectView::ConnectionLost,
        }
    }
}

/// A list of effects as mathematical values.
pub open spec fn effect_views(effects: Seq<Effect>) -> Seq<EffectView> {
    effects.map_values(|e: Effect| e@)
}

/// The request to store a message: under its room and user, with its body,
/// the name of its kind and its emoji flag.
pub open spec fn persist(message: MessageView) -> EffectView {
    EffectView::Persist {
        room_id: message.room_id as i64,
        user_id: message.user_id as i64,
        text: message.message,
        kind: message.message_type.label(),
        is_emoji: message.is_emoji,
    }
}

/// The write of one message to one peer.
pub open spec fn send_to(message: MessageView) -> spec_fn(u64) -> EffectView {
    |peer: u64| EffectView::SendToPeer { peer, message }
}

impl AppStateView {
    /// Whether a member of a room gets a message over the network: not the
    /// excluded user, not the serving node itself, and only a user with a
    /// connection.
    pub open spec fn reaches(self, excluded: Option<u64>) -> spec_fn(u64) -> bool {
        |user_id: u64|
            excluded != Some(user_id) && !(self.is_server && self.user_id == Some(user_id))
                && self.registry.peers.contains_key(user_id)
    }

    /// The peers that a message to a room is written to, in the order of the
    /// room's list.
    pub open spec fn recipients(self, room: Seq<char>, excluded: Option<u64>) -> Seq<u64> {
        self.registry.members_of(room).filter(self.reaches(excluded))
    }

    /// What distributing a message to a room comes to: one write for each
    /// recipient, then one notice to the node's own user interface.
    pub open spec fn distribute(
        self,
        room: Seq<char>,
        message: MessageView,
        excluded: Option<u64>,
    ) -> Seq<EffectView> {
        self.recipients(room, excluded).map_values(send_to(message)).push(
            EffectView::Notify { message },
        )
    }

    /// The state after a message has been handled. Only a room change
    /// touches it.
    pub open spec fn after_message(self, message: MessageView) -> AppStateView {
        match message.message_type {
            MessageType::RoomJoin => self.with_registry(
                self.registry.move_room(message.user_id, message.room, message.room_id),
            ),
            _ => self,
        }
    }

    /// The effects of handling a message.
    ///
    /// `Connect` and `Chat` are stored and go to the message's room without
    /// the excluded user. `RoomJoin` is stored and goes to everybody in the
    /// new room, the mover included. `Disconnect` is stored and goes to the
    /// message's room without its sender. The other kinds do nothing.
    pub open spec fn handle_effects(
        self,
        message: MessageView,
        excluded: Option<u64>,
    ) -> Seq<EffectView> {
        match message.message_type {
            MessageType::Connect | MessageType::Chat => seq![persist(message)] + self.distribute(
                message.room,
                message,
                excluded,
            ),
            MessageType::RoomJoin => seq![persist(message)] + self.after_message(
                message,
            ).distribute(message.room, message, None),
            MessageType::Disconnect => seq![persist(message)] + self.distribute(
                message.room,
                message,
                Some(message.user_id),
            ),
            _ => Seq::empty(),
        }
    }
}

/// Whom a server leaves out when it relays a message that a peer sent: the
/// sender of a chat message, who has shown it to itself already, and nobody
/// otherwise.
pub open spec fn echo_excluded(message: MessageView) -> Option<u64> {
    match message.message_type {
        MessageType::Chat => Some(message.user_id),
        _ => None,
    }
}

/// Who gets a message to a room over the network: exactly the members of
/// the room that have a connection, but for the excluded user and the
/// serving node itself.
pub proof fn lemma_recipient_iff(
    s: AppStateView,
    room: Seq<char>,
    excluded: Option<u64>,
    user_id: u64,
)
    ensures
        s.recipients(room, excluded).contains(user_id) <==> {
            &&& s.registry.is_member(user_id, room)
            &&& excluded != Some(user_id)
            &&& !(s.is_server && s.user_id == Some(user_id))
            &&& s.registry.peers.contains_key(user_id)
        },
{
    let members = s.registry.members_of(room);
    let reaches = s.reaches(excluded);
    if s.recipients(room, excluded).contains(user_id) {
        members.lemma_filter_contains_rev(reaches, user_id);
        let j = choose|j: int|
            0 <= j < members.filter(reaches).len() && members.filter(reaches)[j] == user_id;
        members.lemma_filter_pred(reaches, j);
    }
    if members.contains(user_id) && reaches(user_id) {
        let i = choose|i: int| 0 <= i < members.len() && members[i] == user_id;
        members.lemma_filter_contains(reaches, i);
    }
}

/// The shape of a distribution: one write for each recipient, in order, and
/// then the one notice to the node's own user interface. No write follows
/// the notice, and there is no second notice.
pub proof fn lemma_distribute_shape(
    s: AppStateView,
    room: Seq<char>,
    message: MessageView,
    excluded: Option<u64>,
)
    ensures
        s.distribute(room, message, excluded).len() == s.recipients(room, excluded).len() + 1,
        s.distribute(room, message, excluded).last() == (EffectView::Notify { message }),
        forall|i: int|
            0 <= i < s.recipients(room, excluded).len() ==> #[trigger] s.distribute(
                room,
                message,
                excluded,
            )[i] == (EffectView::SendToPeer { peer: s.recipients(room, excluded)[i], message }),
{
}

/// Handling a message, of whatever kind, keeps a consistent registry
/// consistent.
pub proof fn lemma_after_message_keeps_consistent(s: AppStateView, message: MessageView)
    requires
        s.registry.consistent(),
    ensures
        s.after_message(message).registry.consistent(),
{
    if message.message_type == MessageType::RoomJoin {
        lemma_move_room_keeps_consistent(
            s.registry,
            message.user_id,
            message.room,
            message.room_id,
        );
    }
}

/// The request to store a message.
pub fn persist_request(message: &Message) -> (effect: Effect)
    ensures
        effect@ == persist(message@),
{
    Effect::Persist {
        room_id: #[verifier::truncate] (message.room_id as i64),
        user_id: #[verifier::truncate] (message.user_id as i64),
        text: message.message.clone(),
        kind: String::from_str(message.message_type.name()),
        is_emoji: message.is_emoji,
    }
}

/// Distributes a message to a room.
///
/// Each member of the room gets one write, in the order of the room's list,
/// but for the excluded user, the serving node itself, and members without a
/// connection. After that the node's own user interface gets the message,
/// once, whoever was written to.
pub fn distribute_message_to_all(
    state: &AppState,
    target_room: &String,
    message: &Message,
    exclude_user_id: Option<u64>,
) -> (effects: Vec<Effect>)
    ensures
        effect_views(effects@) == state@.distribute(target_room@, message@, exclude_user_id),
{
    let members = state.registry.members_of(target_room);
    let ghost reaches = state@.reaches(exclude_user_id);
    let ghost send = send_to(message@);
    let mut effects: Vec<Effect> = Vec::new();
    let mut i: usize = 0;
    proof {
        reveal(Seq::filter);
    }
    while i < members.len()
        invariant
            0 <= i <= members.len(),
            reaches == state@.reaches(exclude_user_id),
            send == send_to(message@),
            effect_views(effects@) == members@.take(i as int).filter(reaches).map_values(send),
        decreases members.len() - i,
    {
        let user_id = members[i];
        let excluded = match exclude_user_id {
            Some(e) => e == user_id,
            None => false,
        };
        let own = state.is_server && match state.user_id {
            Some(me) => me == user_id,
            None => false,
        };
        proof {
            assert(members@.take(i as int + 1) =~= members@.take(i as int).push(user_id));
            members@.take(i as int).lemma_filter_push(user_id, reaches);
        }
        if !excluded && !own && state.registry.is_registered(user_id) {
            effects.push(Effect::SendToPeer { peer: user_id, message: message.clone() });
            assert(members@.take(i as int).filter(reaches).push(user_id).map_values(send)
                =~= members@.take(i as int).filter(reaches).map_values(send).push(send(user_id)));
        }
        i += 1;
    }
    proof {
        assert(members@.take(i as int) =~= members@);
    }
    let ghost before = effects@;
    effects.push(Effect::Notify { message: message.clone() });
    assert(effect_views(effects@) =~= effect_views(before).push(
        EffectView::Notify { message: message@ },
    ));
    effects
}

/// Handles a message on the server.
///
/// A room change is made in the registry first. Then the message is stored
/// and distributed as its kind asks; see [`AppStateView::handle_effects`].
pub fn handle(state: &mut AppState, message: Message, excluded_user_id: Option<u64>) -> (effects:
    Vec<Effect>)
    ensures
        final(state)@ == old(state)@.after_message(message@),
        effect_views(effects@) == old(state)@.handle_effects(message@, excluded_user_id),
        old(state)@.registry.consistent() ==> final(state)@.registry.consistent(),
{
    proof {
        if state@.registry.consistent() {
            lemma_after_message_keeps_consistent(state@, message@);
        }
    }
    let excluded = match message.message_type {
        MessageType::Connect | MessageType::Chat => excluded_user_id,
        MessageType::RoomJoin => {
            state.registry.move_room(message.user_id, message.room.clone(), message.room_id);
            None
        },
        MessageType::Disconnect => Some(message.user_id),
        _ => {
            return Vec::new();
        },
    };
    let mut effects: Vec<Effect> = Vec::new();
    effects.push(persist_request(&message));
    let mut fan_out = distribute_message_to_all(state, &message.room, &message, excluded);
    effects.append(&mut fan_out);
    effects
}

/// Handles a message that a peer sent to the server: the sender of a chat
/// message is left out of the fan-out, nobody else is.
pub fn handle_server_message(state: &mut AppState, message: Message) -> (effects: Vec<Effect>)
    ensures
        final(state)@ == old(state)@.after_message(message@),
        effect_views(effects@) == old(state)@.handle_effects(message@, echo_excluded(message@)),
        old(state)@.registry.consistent() ==> final(state)@.registry.consistent(),
{
    let excluded = match message.message_type {
        MessageType::Chat => Some(message.user_id),
        _ => None,
    };
    handle(state, message, excluded)
}

} // verus!
