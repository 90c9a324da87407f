use vstd::prelude::*;

verus! {

/// Size of the viewport in pixels.
#[derive(Clone, Copy, Debug, PartialEq, Eq, Structural)]
pub struct Extent {
    pub width: u32,
    pub height: u32,
}

impl Extent {
    /// Both sides are non-zero, so width over height is a finite, positive
    /// aspect ratio.
    pub open spec fn is_viewport(self) -> bool {
        self.width > 0 && self.height > 0
    }

    pub fn new(width: u32, height: u32) -> (r: Extent)
        ensures
            r.width == width,
            r.height == height,
    {
        Extent { width, height }
    }

    /// Whether a projection can be derived for this extent.
    pub fn has_aspect_ratio(&self) -> (r: bool)
        ensures
            r == self.is_viewport(),
    {
        self.width > 0 && self.height > 0
    }
}

} // verus!
