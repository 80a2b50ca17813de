//! Message handling for a Telegram bot, offered to a host process through a
//! C-compatible boundary.
//!
//! The host hands over the raw request bytes and gets back a small result
//! record: a status, a chat identifier and an owned, null-terminated answer.
//! This crate holds the rules of that exchange over plain values; turning
//! pointers into values and back is left to the adapter around it.

pub mod commands;
pub mod ffi;
pub mod text;
