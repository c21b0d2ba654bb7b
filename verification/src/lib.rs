//! Evergreen: the packet format, passports and the peer-to-peer
//! networking state machines of the FiresideXR networking backend.

pub mod bindings;
pub mod client;
pub mod mesh;
pub mod network;
pub mod signals;
pub mod types;
