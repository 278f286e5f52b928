//! Move decisions for a turn-based snake game: a board snapshot in, one
//! cardinal move out.
pub mod board;
pub mod config;
pub mod coord;
pub mod engine;
pub mod laws;
