use vstd::prelude::*;

verus! {

/// The collision-relevant size of an entity, which may differ from the size
/// it is drawn at.
#[derive(Clone, Copy, Debug, PartialEq, Eq, Structural)]
pub struct HitBox {
    pub width: i64,
    pub height: i64,
}

impl HitBox {
    pub fn new(width: i64, height: i64) -> (r: HitBox)
        ensures
            r.width == width,
            r.height == height,
    {
        HitBox { width, height }
    }

    pub fn width(&self) -> (r: i64)
        ensures
            r == self.width,
    {
        self.width
    }

    pub fn height(&self) -> (r: i64)
        ensures
            r == self.height,
    {
        self.height
    }

    pub fn set_width(&mut self, width: i64)
        ensures
            final(self).width == width,
            final(self).height == old(self).height,
    {
        self.width = width;
    }
}

} // verus!
