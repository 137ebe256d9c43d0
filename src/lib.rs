//! Decisions of a bot that relays direct messages into a channel.
//!
//! The library never talks to the chat platform itself. It says, for each
//! inbound event, which call the caller must make next, and it reads back
//! what that call produced.
pub mod command;
pub mod laws;
pub mod membership;
pub mod message;
pub mod relay;
pub mod settings;
