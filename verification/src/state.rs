//! The state of one node: its own session, and the registry that it keeps
//! while it serves.

use vstd::prelude::*;
use crate::registry::{MembershipRegistry, RegistryView};

verus! {

/// The state of one running node. There is one per process; whichever role is
/// active changes it.
pub struct AppState {
    /// Who is connected to this node and in which room, while it serves.
    pub registry: MembershipRegistry,
    /// Whether the node holds an outbound connection to a server.
    pub client_connected: bool,
    pub username: String,
    pub user_id: Option<u64>,
    pub is_server: bool,
    pub current_room: String,
    pub current_room_id: Option<u64>,
    /// The address that the node listens on while it serves, as text.
    pub server_addr: Option<String>,
}

/// A node's state as a mathematical value.
pub struct AppStateView {
    pub registry: RegistryView,
    pub client_connected: bool,
    pub username: Seq<char>,
    pub user_id: Option<u64>,
    pub is_server: bool,
    pub current_room: Seq<char>,
    pub current_room_id: Option<u64>,
    pub server_addr: Option<Seq<char>>,
}

impl View for AppState {
    type V = AppStateView;

    open spec fn view(&self) -> AppStateView {
        AppStateView {
            registry: self.registry@,
            client_connected: self.client_connected,
            username: self.username@,
            user_id: self.user_id,
            is_server: self.is_server,
            current_room: self.current_room@,
            current_room_id: self.current_room_id,
            server_addr: match self.server_addr {
                Some(addr) => Some(addr@),
                None => None,
            },
        }
    }
}

impl AppStateView {
    /// The state of a node that has not taken a role yet.
    pub open spec fn idle() -> AppStateView {
        AppStateView {
            registry: RegistryView::empty(),
            client_connected: false,
            username: Seq::empty(),
            user_id: None,
            is_server: false,
            current_room: Seq::empty(),
            current_room_id: None,
            server_addr: None,
        }
    }

    /// The same state with another registry.
    pub open spec fn with_registry(self, registry: RegistryView) -> AppStateView {
        AppStateView {
            registry,
            client_connected: self.client_connected,
            username: self.username,
            user_id: self.user_id,
            is_server: self.is_server,
            current_room: self.current_room,
            current_room_id: self.current_room_id,
            server_addr: self.server_addr,
        }
    }
}

impl AppState {
    /// The state of a node that has not taken a role yet.
    pub fn new() -> (state: AppState)
        ensures
            state@ == AppStateView::idle(),
    {
        AppState {
            registry: MembershipRegistry::new(),
            client_connected: false,
            username: String::new(),
            user_id: None,
            is_server: false,
            current_room: String::new(),
            current_room_id: None,
            server_addr: None,
        }
    }
}

/// The address that a serving node listens on, if it serves.
pub fn get_server_info(state: &AppState) -> (addr: Option<String>)
    ensures
        match addr {
            Some(text) => state@.server_addr == Some(text@),
            None => state@.server_addr.is_none(),
        },
{
    match &state.server_addr {
        Some(text) => Some(text.clone()),
        None => None,
    }
}

} // verus!
