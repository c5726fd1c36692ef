//! Session core of a voice-overlay client for Discord's local RPC socket.
//!
//! The crate keeps the connection state (who is in the voice channel, and
//! whether they are muted, deafened or talking), encodes the commands that
//! are sent to the socket, decodes the frames that come back, and decides
//! after every frame what has to be sent, fetched or announced next.

pub mod avatar;
pub mod clispam;
pub mod data;
pub mod digest;
pub mod frames;
pub mod json;
pub mod launcher;
pub mod laws;
pub mod packets;
pub mod rpc;
pub mod session;
pub mod statefile;
pub mod table;
pub mod text;
