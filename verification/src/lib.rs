//! The core of a peer-to-peer LAN chat relay, free of I/O.
//!
//! One process can act as the relay server and as a chat participant at the
//! same time. This crate holds the decisions of such a node: how frames are
//! laid out on the wire, who is registered in which room, and which peers a
//! message is fanned out to. Sockets, threads, storage and the user interface
//! stay with the caller, which performs the effects that the functions here
//! hand back.

pub mod text;
pub mod error;
pub mod codec;
pub mod message;
pub mod registry;
pub mod membership_laws;
pub mod state;
pub mod dispatch;
pub mod server;
pub mod client;
pub mod info;
pub mod discovery;
