//! A line-oriented relay for chat messages: each line is one JSON message, and
//! a message from a private chat is answered with a canned reply.

pub mod handler;
pub mod json;
pub mod listener;
pub mod message;
pub mod routing;
pub mod wire;
