use vstd::prelude::*;

verus! {

/// A region of the screen, in target pixel coordinates.
///
/// When handed to a draw call it restricts rasterization to that rectangle
/// (a scissor rectangle), in addition to the per-glyph bounds clipping
/// already baked into each instance.
#[derive(Debug, Clone, Copy, PartialEq, Eq, Structural)]
pub struct Region {
    pub x: u32,
    pub y: u32,
    pub width: u32,
    pub height: u32,
}

impl Default for Region {
    fn default() -> (r: Region)
        ensures
            r.x == 0 && r.y == 0 && r.width == 0 && r.height == 0,
    {
        Region { x: 0, y: 0, width: 0, height: 0 }
    }
}

} // verus!
