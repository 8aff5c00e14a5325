//! A terminal chess board: match state, clocks, move entry and the
//! orientation-aware mapping from board squares to screen cells.
pub mod types;
pub mod engine;
pub mod geometry;
pub mod render;
pub mod editor;
pub mod clock;
pub mod game;
