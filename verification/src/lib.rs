//! The session logic of a small real-time messaging hub: a registry of
//! connected sessions, the naming handshake, command dispatch, the heartbeat
//! and the per-connection reader, writer and supervisor decisions.

pub mod command;
pub mod frame;
pub mod handshake;
pub mod heartbeat;
pub mod ident;
pub mod lifecycle;
pub mod outbox;
pub mod reader;
pub mod registry;
pub mod supervisor;
pub mod text;
pub mod writer;
