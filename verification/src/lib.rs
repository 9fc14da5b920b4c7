//! Request admission and server lifecycle rules of an HTTP gateway that fronts
//! a chat-completion API.

pub mod config;
pub mod cors;
pub mod error;
pub mod serve;
pub mod shutdown;
pub mod state;
pub mod text;
