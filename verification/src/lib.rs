//! Session layer of a two-party turn-based board game server.
//!
//! The library holds the verified core: the board and coordinate data
//! model, the wire-message codec, the protocol-version negotiator, the
//! admission gate bounding concurrent sessions, the heartbeat liveness
//! monitor, and the per-connection pick/place session state machine.
//! Transport I/O (the websocket handshake, frames and timers) lives in
//! the surrounding application, which feeds decoded plain values into
//! these functions and carries their replies back to the peer.

pub mod admission;
pub mod board;
pub mod board_pos;
pub mod codec;
pub mod heartbeat;
pub mod negotiate;
pub mod piece;
pub mod protocol;
pub mod session;
pub mod text;
pub mod valid_moves;
