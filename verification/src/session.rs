//! What a saved session remembers of a window.

use vstd::prelude::*;

verus! {

/// Where a window stands on the screen and how large it is.
#[derive(Debug, Clone, Copy, PartialEq, Eq, Structural)]
pub struct WindowBounds {
    pub x: i32,
    pub y: i32,
    pub width: u32,
    pub height: u32,
    pub maximized: bool,
}

impl WindowBounds {
    /// The bounds of a window that was never moved: 1200 by 800 at
    /// (100, 100), not maximized.
    pub open spec fn initial() -> WindowBounds {
        WindowBounds { x: 100, y: 100, width: 1200, height: 800, maximized: false }
    }
}

impl Default for WindowBounds {
    fn default() -> (bounds: WindowBounds)
        ensures
            bounds == WindowBounds::initial(),
    {
        WindowBounds { x: 100, y: 100, width: 1200, height: 800, maximized: false }
    }
}

} // verus!
