//! Chat messages and the texts of the messages that a node writes itself.

use vstd::prelude::*;
use vstd::string::StringExecFns;

verus! {

/// What a message is for. The relay acts on `Connect`, `Disconnect`, `Chat`
/// and `RoomJoin`; the other kinds are reserved and pass without effect.
#[derive(Clone, Copy, Debug, PartialEq, Eq, Structural)]
pub enum MessageType {
    Connect,
    Disconnect,
    Chat,
    RoomJoin,
    RoomLeave,
    UserList,
    ServerAck,
}

impl MessageType {
    /// The name of a kind, as it is written on the wire and in storage.
    pub open spec fn label(self) -> Seq<char> {
        match self {
            MessageType::Connect => "Connect"@,
            MessageType::Disconnect => "Disconnect"@,
            MessageType::Chat => "Chat"@,
            MessageType::RoomJoin => "RoomJoin"@,
            MessageType::RoomLeave => "RoomLeave"@,
            MessageType::UserList => "UserList"@,
            MessageType::ServerAck => "ServerAck"@,
        }
    }

    /// The name of this kind.
    pub fn name(&self) -> (s: &'static str)
        ensures
            s@ == self.label(),
    {
        match self {
            MessageType::Connect => "Connect",
            MessageType::Disconnect => "Disconnect",
            MessageType::Chat => "Chat",
            MessageType::RoomJoin => "RoomJoin",
            MessageType::RoomLeave => "RoomLeave",
            MessageType::UserList => "UserList",
            MessageType::ServerAck => "ServerAck",
        }
    }
}

/// One chat message. It is not changed once it is made.
#[derive(Debug, PartialEq, Eq)]
pub struct Message {
    pub message_type: MessageType,
    pub username: String,
    pub user_id: u64,
    pub message: String,
    pub message_id: String,
    pub room: String,
    pub room_id: u64,
    /// Seconds since the Unix epoch.
    pub created_at: u64,
    pub is_emoji: bool,
}

/// A message as a mathematical value.
pub struct MessageView {
    pub message_type: MessageType,
    pub username: Seq<char>,
    pub user_id: u64,
    pub message: Seq<char>,
    pub message_id: Seq<char>,
    pub room: Seq<char>,
    pub room_id: u64,
    pub created_at: u64,
    pub is_emoji: bool,
}

impl View for Message {
    type V = MessageView;

    open spec fn view(&self) -> MessageView {
        MessageView {
            message_type: self.message_type,
            username: self.username@,
            user_id: self.user_id,
            message: self.message@,
            message_id: self.message_id@,
            room: self.room@,
            room_id: self.room_id,
            created_at: self.created_at,
            is_emoji: self.is_emoji,
        }
    }
}

impl Clone for Message {
    fn clone(&self) -> (copy: Self)
        ensures
            copy == *self,
    {
        Message {
            message_type: self.message_type,
            username: self.username.clone(),
            user_id: self.user_id,
            message: self.message.clone(),
            message_id: self.message_id.clone(),
            room: self.room.clone(),
            room_id: self.room_id,
            created_at: self.created_at,
            is_emoji: self.is_emoji,
        }
    }
}

/// A lower-case hexadecimal digit.
pub open spec fn is_lower_hex(c: char) -> bool {
    ('0' <= c && c <= '9') || ('a' <= c && c <= 'f')
}

/// The shape of a message id: 36 characters, hyphens after the 8th, 12th,
/// 16th and 20th hexadecimal digit, lower-case hexadecimal digits elsewhere.
pub open spec fn is_message_id(s: Seq<char>) -> bool {
    &&& s.len() == 36
    &&& forall|i: int|
        0 <= i < 36 ==> if i == 8 || i == 13 || i == 18 || i == 23 {
            s[i] == '-'
        } else {
            is_lower_hex(#[trigger] s[i])
        }
}

/// Draws a fresh message id.
///
/// Trusted: the body calls `uuid::Uuid::new_v4` and renders the result with
/// `to_string`. The contract claims only the shape of the text, which is the
/// crate's hyphenated lower-case form; which id comes out is left open, so two
/// calls may differ. The call aborts if the operating system cannot supply
/// random bytes.
#[verifier::external_body]
pub(crate) fn new_message_id() -> (id: String)
    ensures
        is_message_id(id@),
{
    uuid::Uuid::new_v4().to_string()
}

/// The body of the message that a client sends when it joins.
pub open spec fn joined_text(username: Seq<char>) -> Seq<char> {
    username + " joined the chat"@
}

/// The body of the join message with the client's mark in front.
pub open spec fn marked_joined_text(username: Seq<char>) -> Seq<char> {
    "\u{1F535} "@ + username + " joined the chat"@
}

/// The body of the message with which a server announces itself.
pub open spec fn server_started_text(username: Seq<char>) -> Seq<char> {
    "\u{1F7E2} "@ + username + " started the server and joined the chat"@
}

/// The body of the message that tells a room that a user is gone.
pub open spec fn left_text(username: Seq<char>) -> Seq<char> {
    username + " left the chat"@
}

impl MessageView {
    /// A chat message.
    pub open spec fn chat(
        username: Seq<char>,
        user_id: u64,
        body: Seq<char>,
        message_id: Seq<char>,
        room: Seq<char>,
        room_id: u64,
        created_at: u64,
        is_emoji: bool,
    ) -> MessageView {
        MessageView {
            message_type: MessageType::Chat,
            username,
            user_id,
            message: body,
            message_id,
            room,
            room_id,
            created_at,
            is_emoji,
        }
    }

    /// A message that the node writes itself: of the given kind, with the
    /// given body, never an emoji.
    pub open spec fn notice(
        message_type: MessageType,
        username: Seq<char>,
        user_id: u64,
        body: Seq<char>,
        message_id: Seq<char>,
        room: Seq<char>,
        room_id: u64,
        created_at: u64,
    ) -> MessageView {
        MessageView {
            message_type,
            username,
            user_id,
            message: body,
            message_id,
            room,
            room_id,
            created_at,
            is_emoji: false,
        }
    }
}

impl Message {
    /// A chat message with the given body.
    pub fn chat(
        username: String,
        user_id: u64,
        body: String,
        message_id: String,
        room: String,
        room_id: u64,
        created_at: u64,
        is_emoji: bool,
    ) -> (m: Message)
        ensures
            m@ == MessageView::chat(
                username@,
                user_id,
                body@,
                message_id@,
                room@,
                room_id,
                created_at,
                is_emoji,
            ),
    {
        Message {
            message_type: MessageType::Chat,
            username,
            user_id,
            message: body,
            message_id,
            room,
            room_id,
            created_at,
            is_emoji,
        }
    }

    /// The message with which a client joins a server: "<username> joined the
    /// chat", with a blue mark in front if `marked` is set.
    pub fn joined(
        username: String,
        user_id: u64,
        message_id: String,
        room: String,
        room_id: u64,
        created_at: u64,
        marked: bool,
    ) -> (m: Message)
        ensures
            m@ == MessageView::notice(
                MessageType::Connect,
                username@,
                user_id,
                if marked {
                    marked_joined_text(username@)
                } else {
                    joined_text(username@)
                },
                message_id@,
                room@,
                room_id,
                created_at,
            ),
    {
        let mut body = if marked {
            String::from_str("\u{1F535} ")
        } else {
            String::new()
        };
        body.append(username.as_str());
        body.append(" joined the chat");
        assert(body@ =~= if marked {
            marked_joined_text(username@)
        } else {
            joined_text(username@)
        });
        Message {
            message_type: MessageType::Connect,
            username,
            user_id,
            message: body,
            message_id,
            room,
            room_id,
            created_at,
            is_emoji: false,
        }
    }

    /// The message with which a server announces that it has started and
    /// takes part in the chat.
    pub fn server_started(
        username: String,
        user_id: u64,
        message_id: String,
        room: String,
        room_id: u64,
        created_at: u64,
    ) -> (m: Message)
        ensures
            m@ == MessageView::notice(
                MessageType::Connect,
                username@,
                user_id,
                server_started_text(username@),
                message_id@,
                room@,
                room_id,
                created_at,
            ),
    {
        let mut body = String::from_str("\u{1F7E2} ");
        body.append(username.as_str());
        body.append(" started the server and joined the chat");
        Message {
            message_type: MessageType::Connect,
            username,
            user_id,
            message: body,
            message_id,
            room,
            room_id,
            created_at,
            is_emoji: false,
        }
    }

    /// The message that tells a room that a user has left: "<username> left
    /// the chat".
    pub fn left(
        username: String,
        user_id: u64,
        message_id: String,
        room: String,
        room_id: u64,
        created_at: u64,
    ) -> (m: Message)
        ensures
            m@ == MessageView::notice(
                MessageType::Disconnect,
                username@,
                user_id,
                left_text(username@),
                message_id@,
                room@,
                room_id,
                created_at,
            ),
    {
        let mut body = username.clone();
        body.append(" left the chat");
        Message {
            message_type: MessageType::Disconnect,
            username,
            user_id,
            message: body,
            message_id,
            room,
            room_id,
            created_at,
            is_emoji: false,
        }
    }
}

} // verus!
