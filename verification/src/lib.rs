//! A deterministic, seed-reproducible sliding-tile merge puzzle on a fixed
//! 4x4 grid: four single-pass shift/merge moves, each followed by one tile
//! spawn drawn from a ChaCha stream seeded at construction.

pub mod game;
pub mod laws;
pub mod rng;
