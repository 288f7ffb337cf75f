//! The rows that the store keeps.

pub mod models;
