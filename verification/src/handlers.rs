//! Decisions of the message and WebSocket handlers.

pub mod message;
pub mod ws_handler;
