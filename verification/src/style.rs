//! The shapes and alignments that a drawing names.

use vstd::prelude::*;

verus! {

/// The shape drawn at each point of a scatter plot.
#[derive(Clone, Copy, Debug, PartialEq, Eq, Structural)]
pub enum Marker {
    Circle,
    Plus,
    Cross,
    Star,
    Square,
    Triangle,
    Diamond,
    Hexagon,
    Octagon,
}

/// Where a text lies relative to the position it is drawn at, along one
/// direction.
#[derive(Clone, Copy, Debug, PartialEq, Eq, Structural)]
pub enum Align {
    /// The text begins at the position.
    Start,
    /// The text is centred on the position.
    Center,
    /// The text ends at the position.
    End,
}

} // verus!
