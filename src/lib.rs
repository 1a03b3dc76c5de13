//! The core of a Go engine's Monte Carlo tree search: the symmetries of the
//! board, the masking and symmetry elimination of move priors, the visit
//! bookkeeping of the search tree with virtual loss, the batching of leaves for
//! the network, and the time-control decision.

use vstd::prelude::*;

pub mod batcher;
pub mod board;
pub mod features;
pub mod options;
pub mod policy;
pub mod random;
pub mod search;
pub mod symmetry;
pub mod time_control;
pub mod tree;

verus! {

/// The color of a stone or of the player to move.
#[derive(Clone, Copy, Debug, PartialEq, Eq, Structural)]
pub enum Color {
    Black,
    White,
}

impl Color {
    pub open spec fn spec_opposite(self) -> Color {
        match self {
            Color::Black => Color::White,
            Color::White => Color::Black,
        }
    }

    /// The other color.
    pub fn opposite(self) -> (r: Color)
        ensures
            r == self.spec_opposite(),
    {
        match self {
            Color::Black => Color::White,
            Color::White => Color::Black,
        }
    }
}

} // verus!
