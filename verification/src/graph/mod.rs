//! The board graph: positions, neighbour derivation, board state and the
//! search that validates a move.

pub mod errors;
pub mod models;
pub mod topology;
pub mod frontier;
pub mod vertices;
pub mod state;
pub mod search;
pub mod laws;
pub mod graph;
