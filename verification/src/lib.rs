//! Core logic of a small chat-bot client: loading and normalising the
//! authentication credential, the gateway intent bitmask the bot subscribes
//! with, the shared startup context, and the event listener.
//!
//! Connection management, command dispatch and all other gateway behaviour
//! are delegated to an external framework and live outside this crate.

pub mod constants;
pub mod credential;
pub mod events;
pub mod framework;
