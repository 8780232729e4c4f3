//! Margins around the plot and the legend.

use vstd::prelude::*;

verus! {

/// One pixel, in the unit of the drawing's lengths and coordinates.
pub const PIXEL: u32 = 1000;

/// A margin reserved around an area. Each side is a length in thousandths of a
/// pixel, the unit of every coordinate in the scene.
#[derive(Clone, Copy, Debug, PartialEq, Eq, Structural)]
pub struct Gutter {
    pub left: u32,
    pub top: u32,
    pub right: u32,
    pub bottom: u32,
}

impl Gutter {
    /// The vertical space the margin takes: top and bottom together.
    pub fn top_bottom(&self) -> (total: u64)
        ensures
            total == self.bottom + self.top,
    {
        self.bottom as u64 + self.top as u64
    }

    /// The horizontal space the margin takes: left and right together.
    pub fn left_right(&self) -> (total: u64)
        ensures
            total == self.right + self.left,
    {
        self.right as u64 + self.left as u64
    }
}

} // verus!
