use vstd::prelude::*;

verus! {

/// Whether an integer value is representable as an `i64`.
pub open spec fn fits(v: int) -> bool {
    i64::MIN <= v <= i64::MAX
}

/// A point in the plane, in fixed-point units.
#[derive(Clone, Copy, Debug, PartialEq, Eq, Structural)]
pub struct Position {
    pub x: i64,
    pub y: i64,
}

impl Position {
    pub fn new(x: i64, y: i64) -> (r: Position)
        ensures
            r.x == x,
            r.y == y,
    {
        Position { x, y }
    }

    pub fn x(&self) -> (r: i64)
        ensures
            r == self.x,
    {
        self.x
    }

    pub fn y(&self) -> (r: i64)
        ensures
            r == self.y,
    {
        self.y
    }

    pub fn set_x(&mut self, x: i64)
        ensures
            *final(self) == (Position { x, y: old(self).y }),
    {
        self.x = x;
    }

    pub fn set_y(&mut self, y: i64)
        ensures
            *final(self) == (Position { x: old(self).x, y }),
    {
        self.y = y;
    }

    pub fn mutate_x(&mut self, delta: i64)
        requires
            fits(old(self).x + delta),
        ensures
            final(self).x == old(self).x + delta,
            final(self).y == old(self).y,
    {
        self.x = self.x + delta;
    }

    pub fn mutate_y(&mut self, delta: i64)
        requires
            fits(old(self).y + delta),
        ensures
            final(self).x == old(self).x,
            final(self).y == old(self).y + delta,
    {
        self.y = self.y + delta;
    }
}

/// A per-frame displacement, in fixed-point units.
#[derive(Clone, Copy, Debug, PartialEq, Eq, Structural)]
pub struct Velocity {
    pub x: i64,
    pub y: i64,
}

impl Velocity {
    pub fn new(x: i64, y: i64) -> (r: Velocity)
        ensures
            r.x == x,
            r.y == y,
    {
        Velocity { x, y }
    }

    pub fn x(&self) -> (r: i64)
        ensures
            r == self.x,
    {
        self.x
    }

    pub fn y(&self) -> (r: i64)
        ensures
            r == self.y,
    {
        self.y
    }

    pub fn set_x(&mut self, x: i64)
        ensures
            *final(self) == (Velocity { x, y: old(self).y }),
    {
        self.x = x;
    }

    pub fn set_y(&mut self, y: i64)
        ensures
            *final(self) == (Velocity { x: old(self).x, y }),
    {
        self.y = y;
    }

    pub fn mutate_x(&mut self, delta: i64)
        requires
            fits(old(self).x + delta),
        ensures
            final(self).x == old(self).x + delta,
            final(self).y == old(self).y,
    {
        self.x = self.x + delta;
    }

    pub fn mutate_y(&mut self, delta: i64)
        requires
            fits(old(self).y + delta),
        ensures
            final(self).x == old(self).x,
            final(self).y == old(self).y + delta,
    {
        self.y = self.y + delta;
    }
}

} // verus!
