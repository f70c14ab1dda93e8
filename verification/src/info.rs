//! Descriptions of rooms, users and servers, as they are shown to a user.

use vstd::prelude::*;

verus! {

/// A room, as it is listed.
#[derive(Debug, PartialEq, Eq)]
pub struct RoomInfo {
    pub name: String,
    pub description: String,
    pub user_count: usize,
}

/// A user, as it is listed.
#[derive(Debug, PartialEq, Eq)]
pub struct UserInfo {
    pub username: String,
    pub current_room: String,
    pub is_online: bool,
}

/// A server that was found on the network.
#[derive(Debug, PartialEq, Eq)]
pub struct ServerInfo {
    pub address: String,
    pub port: u16,
    pub name: String,
    /// How many users the server has. A probe cannot tell, and writes 0.
    pub user_count: usize,
}

impl Clone for RoomInfo {
    fn clone(&self) -> (copy: Self)
        ensures
            copy == *self,
    {
        RoomInfo {
            name: self.name.clone(),
            description: self.description.clone(),
            user_count: self.user_count,
        }
    }
}

impl Clone for UserInfo {
    fn clone(&self) -> (copy: Self)
        ensures
            copy == *self,
    {
        UserInfo {
            username: self.username.clone(),
            current_room: self.current_room.clone(),
            is_online: self.is_online,
        }
    }
}

impl Clone for ServerInfo {
    fn clone(&self) -> (copy: Self)
        ensures
            copy == *self,
    {
        ServerInfo {
            address: self.address.clone(),
            port: self.port,
            name: self.name.clone(),
            user_count: self.user_count,
        }
    }
}

/// A found server as a mathematical value.
pub struct ServerInfoView {
    pub address: Seq<char>,
    pub port: u16,
    pub name: Seq<char>,
    pub user_count: usize,
}

impl View for ServerInfo {
    type V = ServerInfoView;

    open spec fn view(&self) -> ServerInfoView {
        ServerInfoView {
            address: self.address@,
            port: self.port,
            name: self.name@,
            user_count: self.user_count,
        }
    }
}

} // verus!
