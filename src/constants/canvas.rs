use vstd::prelude::*;

verus! {

/// Fixed-point units in one pixel.
pub const UNITS_PER_PIXEL: i64 = 1000;

/// The playing field: its size and the gravity applied each frame.
#[derive(Clone, Copy, Debug, PartialEq, Eq, Structural)]
pub struct Canvas {
    pub width: i64,
    pub height: i64,
    pub gravity: i64,
}

impl Canvas {
    /// The standard field: 1024 by 576 pixels, with half a pixel per frame of
    /// gravity.
    pub fn standard() -> (r: Canvas)
        ensures
            r.width == 1024 * UNITS_PER_PIXEL,
            r.height == 576 * UNITS_PER_PIXEL,
            r.gravity == UNITS_PER_PIXEL / 2,
    {
        Canvas { width: 1024 * UNITS_PER_PIXEL, height: 576 * UNITS_PER_PIXEL, gravity: UNITS_PER_PIXEL / 2 }
    }

    pub fn width(&self) -> (r: i64)
        ensures
            r == self.width,
    {
        self.width
    }

    pub fn height(&self) -> (r: i64)
        ensures
            r == self.height,
    {
        self.height
    }

    pub fn gravity(&self) -> (r: i64)
        ensures
            r == self.gravity,
    {
        self.gravity
    }
}

} // verus!
