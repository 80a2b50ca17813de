//! Command handling.

pub mod handler;
