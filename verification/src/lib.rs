//! A falling-block puzzle engine: a grid of lockable cells, an active
//! tetromino piece, and the rules for gravity, movement, rotation,
//! collision, locking and loss detection.

use vstd::prelude::*;

pub mod grid;
pub mod shape;
pub mod tetris;

pub use crate::shape::{Kind, Pos, Shape};
pub use crate::tetris::{CellLook, Direction, Tetris};

verus! {

/// Configuration handed in by the embedding layer: the grid extent requested
/// for a new game. Missing values fall back to a 10 x 30 field.
pub struct App {
    pub width: u32,
    pub height: u32,
}

impl App {
    /// Builds the configuration, filling absent dimensions with the defaults.
    pub fn new(width: Option<u32>, height: Option<u32>) -> (r: App)
        ensures
            r.width == (if width is Some { width->0 } else { 10u32 }),
            r.height == (if height is Some { height->0 } else { 30u32 }),
    {
        App {
            width: if let Some(w) = width { w } else { 10 },
            height: if let Some(h) = height { h } else { 30 },
        }
    }
}

} // verus!
