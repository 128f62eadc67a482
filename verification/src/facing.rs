//! The eight-way facing of a sprite.
//!
//! Deriving a facing from a continuous movement direction is the render
//! layer's concern; the core only classifies a facing, e.g. to decide whether
//! a sprite should be flipped when it faces westward.

use vstd::prelude::*;

verus! {

/// A compass facing, eight ways.
#[derive(Clone, Copy, Debug, PartialEq, Eq, Structural)]
pub enum SpriteFacing {
    East,
    North,
    NorthEast,
    NorthWest,
    South,
    SouthEast,
    SouthWest,
    West,
}

impl SpriteFacing {
    /// Whether the facing has a northward component.
    pub fn is_northward(&self) -> (northward: bool)
        ensures
            northward == (self is North || self is NorthWest || self is NorthEast),
    {
        matches!(self, Self::North | Self::NorthWest | Self::NorthEast)
    }

    /// Whether the facing has a westward component.
    pub fn is_westward(&self) -> (westward: bool)
        ensures
            westward == (self is West || self is NorthWest || self is SouthWest),
    {
        matches!(self, Self::West | Self::NorthWest | Self::SouthWest)
    }
}

impl Default for SpriteFacing {
    /// Sprites face west until told otherwise.
    fn default() -> (facing: Self)
        ensures
            facing == SpriteFacing::West,
    {
        SpriteFacing::West
    }
}

} // verus!
