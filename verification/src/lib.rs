//! Verified core of a distributed actor runtime: the value codec, the mailbox
//! and scratch slot, process supervision, the host operations that reach other
//! nodes, and the node server's request handling.

pub mod client;
pub mod mailbox;
pub mod memory;
pub mod message;
pub mod process;
pub mod protocol;
pub mod server;
pub mod value;
