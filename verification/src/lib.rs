//! Move validation and game coordination for an online pentagame server.
//!
//! The board is a fixed graph of base points and lane stops. A move is legal
//! when a path of free positions leads from a figure's position to its
//! destination. One coordinator per game owns the board state and the set of
//! connected sessions; one session handler per connection turns wire
//! messages into requests.

pub mod auth;
pub mod config;
pub mod db;
pub mod frontend;
pub mod graph;
pub mod ws;
