//! The room-based mesh network over iroh: every peer of a room holds a
//! connection to every other peer of it.

pub mod event_loop;
pub mod handshake;
pub mod passport;
pub mod room;
pub mod wire;
