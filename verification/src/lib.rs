//! Presence IPC client: a length-prefixed, opcode-tagged framing protocol
//! over a local duplex channel, with a one-shot handshake, an activity
//! reporter, a track-snapshot deduplicator, and a connection supervisor
//! that reconnects on transport failure.

pub mod frame;
pub mod handshake;
pub mod text;
pub mod payload;
pub mod supervisor;
pub mod track;
