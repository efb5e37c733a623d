//! The dimensions of the visible viewport.

use vstd::prelude::*;

verus! {

/// Viewport dimensions, in display columns and rows.
#[derive(Copy, Clone, Debug, PartialEq, Eq, Structural)]
pub struct Size {
    pub width: usize,
    pub height: usize,
}

impl Default for Size {
    /// An empty viewport.
    fn default() -> (s: Size)
        ensures
            s.width == 0,
            s.height == 0,
    {
        Size { width: 0, height: 0 }
    }
}

} // verus!
