//! InputSync: keyboard, mouse, clipboard and file sharing between machines.
//!
//! This crate holds the verified core: the wire framing, the message model,
//! the handshake rules, the screen-edge routing state machine, clipboard loop
//! prevention, file-transfer bookkeeping and the daemon's request handling.

pub mod client;
pub mod clipboard;
pub mod codec;
pub mod config;
pub mod daemon;
pub mod edge;
pub mod error;
pub mod event;
pub mod filetransfer;
pub mod handshake;
pub mod header;
pub mod heartbeat;
pub mod id;
pub mod ipc;
pub mod launcher;
pub mod message;
pub mod pinning;
pub mod platform;
pub mod screen;
pub mod session;
pub mod status_view;
pub mod text;
pub mod windows_input;
