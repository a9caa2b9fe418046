//! A Monte-Carlo tree search engine for the game of Go: the search tree,
//! the playout policy, move statistics and the text protocol.

pub mod board;
pub mod config;
pub mod engine;
pub mod gtp;
pub mod playout;
pub mod ratio;
pub mod rng;
pub mod text;
