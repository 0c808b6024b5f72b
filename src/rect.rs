use vstd::prelude::*;

verus! {

/// An axis-aligned rectangle in pixels.
#[derive(Clone, Copy, Debug, PartialEq, Eq, Structural)]
pub struct WglRect {
    pub x: i32,
    pub y: i32,
    pub w: i32,
    pub h: i32,
}

impl WglRect {
    pub fn new(x: i32, y: i32, w: i32, h: i32) -> (r: Self)
        ensures
            r == (WglRect { x, y, w, h }),
    {
        WglRect { x, y, w, h }
    }
}

} // verus!
