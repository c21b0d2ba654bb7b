//! The decisions of the libp2p network tasks, as state machines that take
//! an event or a command and give back what the task must do.

pub mod peers;
pub mod untrusted;
pub mod server;
