//! A small two-player "drop-piece" board game: tokens fall under gravity into
//! a 4x4 grid, and the engine reports the board state and the win/draw
//! outcome. The board algorithms (placement, four-in-a-row detection, draw
//! detection, rendering) and the engine operations (reset, place, query,
//! randomize) are verified; the seeded random generator is modelled over a
//! deterministic stream.

pub mod board;
pub mod engine;
pub mod rng;
