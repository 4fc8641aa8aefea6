//! A multi-user text-chat engine: wire packets, channel membership, and the
//! per-connection session logic of the server, with machine-checked contracts.

pub mod channel;
pub mod client;
pub mod codec;
pub mod command;
pub mod dialogue;
pub mod coordinator;
pub mod frame;
pub mod hash;
pub mod input;
pub mod json;
pub mod packet;
pub mod registry;
pub mod session;
pub mod text;
pub mod user;
