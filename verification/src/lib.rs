//! Verified core of the Orbifon chat server: error classification, message
//! validation, channel naming, the per-message decisions of the WebSocket
//! handlers and the registry of users connected to each channel.
pub mod text;
pub mod keys;
pub mod error;
pub mod message;
pub mod handler;
pub mod registry;
