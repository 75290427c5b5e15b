//! Measures and placements of the interface.

use vstd::prelude::*;

verus! {

/// A length on the screen.
#[derive(Clone, Copy, PartialEq, Eq, Hash, Debug, Structural)]
pub enum Length {
    /// So many pixels.
    Px(u32),
    /// So many hundredths of the length of the surrounding node.
    Percent(u32),
}

/// A length for each of the four sides of a node.
#[derive(Clone, Copy, PartialEq, Eq, Hash, Debug, Structural)]
pub struct Edges {
    pub left: Length,
    pub right: Length,
    pub top: Length,
    pub bottom: Length,
}

impl Edges {
    /// The same length on every side.
    pub fn all(length: Length) -> (edges: Edges)
        ensures
            edges == (Edges { left: length, right: length, top: length, bottom: length }),
    {
        Edges { left: length, right: length, top: length, bottom: length }
    }
}

/// Where a node puts what it holds, along one axis.
#[derive(Clone, Copy, PartialEq, Eq, Hash, Debug, Structural)]
pub enum Align {
    Start,
    Center,
    End,
}

/// The axis along which a node lays out what it holds.
#[derive(Clone, Copy, PartialEq, Eq, Hash, Debug, Structural)]
pub enum Direction {
    Row,
    Column,
}

} // verus!
