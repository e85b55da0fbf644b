//! A chat relay: the wire codec, the server's connection registry and relay
//! handler, and the client's session and reconnect supervisor, each verified
//! against a mathematical model of its behaviour.

pub mod codec;
pub mod command;
pub mod delivery;
pub mod json;
pub mod message;
pub mod registry;
pub mod relay;
pub mod session;
pub mod settings;
pub mod supervisor;
