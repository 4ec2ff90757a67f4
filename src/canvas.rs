use vstd::prelude::*;

use crate::stroke::PenPoint;

verus! {

/// A rectangle of the screen, in pixels.
#[derive(Clone, Copy, Debug, PartialEq, Eq, Structural)]
pub struct Rect {
    pub top: u32,
    pub left: u32,
    pub height: u32,
    pub width: u32,
}

impl Rect {
    /// `p` lies in the rectangle, its far edges included (the framebuffer's
    /// rule for its rectangles).
    pub open spec fn spec_contains(self, p: PenPoint) -> bool {
        &&& self.left <= p.x <= self.left + self.width
        &&& self.top <= p.y <= self.top + self.height
    }

    pub fn contains_point(&self, p: PenPoint) -> (r: bool)
        ensures
            r == self.spec_contains(p),
    {
        let right: u64 = self.left as u64 + self.width as u64;
        let bottom: u64 = self.top as u64 + self.height as u64;
        !(p.x < self.left || p.x as u64 > right || p.y < self.top || p.y as u64 > bottom)
    }
}

/// The canvas that strokes are drawn on: the upper half of the screen.
pub fn front_canvas() -> (r: Rect)
    ensures
        r == (Rect { top: 74, left: 4, height: 896, width: 1396 }),
{
    Rect { top: 74, left: 4, height: 896, width: 1396 }
}

/// The lower half of the screen, framed but not drawn on.
pub fn back_canvas() -> (r: Rect)
    ensures
        r == (Rect { top: 972, left: 4, height: 896, width: 1396 }),
{
    Rect { top: 972, left: 4, height: 896, width: 1396 }
}

} // verus!
