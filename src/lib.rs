//! Signaling and media-routing core of a selective forwarding unit.
//!
//! - `room`: a room's users, the track map each user shares with its peer,
//!   the tracks published in the room and the events it publishes.
//! - `peer`: a client's forwarders, the media types it announced, and its
//!   place in negotiation (`negotiation`).
//! - `session`: the decisions of a client session, from authentication to
//!   clean-up; its driver does the I/O.
//! - `guarantees`: properties that hold across these operations.
//! - `packets`, `track_map`, `text`: the protocol's types and helpers.
//! - `management`, `users`, `ws_error`, `ws_session`, `config`: the
//!   room-management surface, its users and tokens, the decisions of its
//!   WebSocket sessions, and the server's configuration checks.

pub mod config;
pub mod guarantees;
pub mod management;
pub mod negotiation;
pub mod packets;
pub mod peer;
pub mod room;
pub mod session;
pub mod text;
pub mod track_map;
pub mod users;
pub mod ws_error;
pub mod ws_session;
