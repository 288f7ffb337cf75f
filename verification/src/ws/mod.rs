//! The game coordinator, the session handler and the messages between them.

pub mod wire;
pub mod payload;
pub mod errors;
pub mod models;
pub mod messages;
pub mod session;
pub mod actor;
