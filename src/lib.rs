//! Dialogue routing for a chat bot that walks users through exercises.
//!
//! Each chat is either idle or inside an exercise. An incoming text is
//! parsed against the commands of the chat's current state only, and the
//! router decides the next state and the reply, if any.

pub mod command;
pub mod laws;
pub mod router;
pub mod state;
pub mod store;
pub mod text;
