use vstd::prelude::*;
use crate::components::hit_box::HitBox;
use crate::components::position::Position;
use crate::sprites::Sprite;

verus! {

/// The edge of a stationary body that a moving body struck.
#[derive(Clone, Copy, Debug, PartialEq, Eq, Structural)]
pub enum Collision {
    Left,
    Right,
    Top,
    Bottom,
}

impl Collision {
    pub open spec fn spec_is_horizontal(self) -> bool {
        self == Collision::Left || self == Collision::Right
    }

    pub fn is_horizontal(&self) -> (r: bool)
        ensures
            r == self.spec_is_horizontal(),
    {
        match self {
            Collision::Left | Collision::Right => true,
            _ => false,
        }
    }

    pub fn is_vertical(&self) -> (r: bool)
        ensures
            r == !self.spec_is_horizontal(),
    {
        match self {
            Collision::Top | Collision::Bottom => true,
            _ => false,
        }
    }
}

/// Whether the rectangle of size `b` at `p` and the one of size `c` at `q`
/// overlap; rectangles that only touch do not.
pub open spec fn overlaps(p: Position, b: HitBox, q: Position, c: HitBox) -> bool {
    &&& p.x < q.x + c.width
    &&& p.x + b.width > q.x
    &&& p.y < q.y + c.height
    &&& p.y + b.height > q.y
}

/// The edge of the rectangle `(q, c)` that a body of size `b`, which was at
/// `prev` one frame ago, crossed: the first of left, right, top and bottom
/// that it was entirely beyond, or none when it already overlapped.
pub open spec fn side_of(prev: Position, b: HitBox, q: Position, c: HitBox) -> Option<Collision> {
    if prev.x + b.width <= q.x {
        Some(Collision::Left)
    } else if prev.x >= q.x + c.width {
        Some(Collision::Right)
    } else if prev.y + b.height <= q.y {
        Some(Collision::Top)
    } else if prev.y >= q.y + c.height {
        Some(Collision::Bottom)
    } else {
        None
    }
}

/// Whether the hit boxes of the two sprites overlap where they are now.
pub fn intersects<S: Sprite, T: Sprite>(sprite: &S, other: &T) -> (r: bool)
    ensures
        r == overlaps(
            sprite.spec_position(),
            sprite.spec_collision_box(),
            other.spec_position(),
            other.spec_collision_box(),
        ),
{
    let p = sprite.position();
    let b = sprite.collision_box();
    let q = other.position();
    let c = other.collision_box();
    !((p.x as i128) + (b.width as i128) <= (q.x as i128)
        || (p.x as i128) >= (q.x as i128) + (c.width as i128)
        || (p.y as i128) + (b.height as i128) <= (q.y as i128)
        || (p.y as i128) >= (q.y as i128) + (c.height as i128))
}

/// Which edge of `other` the moving `sprite` struck, judged from where the
/// sprite was at the start of the frame.
pub fn collision_side<S: Sprite, T: Sprite>(sprite: &S, other: &T) -> (r: Option<Collision>)
    ensures
        r == side_of(
            sprite.spec_previous_position(),
            sprite.spec_collision_box(),
            other.spec_position(),
            other.spec_collision_box(),
        ),
{
    let prev = sprite.previous_position();
    let b = sprite.collision_box();
    let q = other.position();
    let c = other.collision_box();
    if (prev.x as i128) + (b.width as i128) <= (q.x as i128) {
        Some(Collision::Left)
    } else if (prev.x as i128) >= (q.x as i128) + (c.width as i128) {
        Some(Collision::Right)
    } else if (prev.y as i128) + (b.height as i128) <= (q.y as i128) {
        Some(Collision::Top)
    } else if (prev.y as i128) >= (q.y as i128) + (c.height as i128) {
        Some(Collision::Bottom)
    } else {
        None
    }
}

/// Overlap is symmetric: `intersects(a, b) == intersects(b, a)`.
pub proof fn lemma_overlaps_symmetric(p: Position, b: HitBox, q: Position, c: HitBox)
    ensures
        overlaps(p, b, q, c) == overlaps(q, c, p, b),
{
}

/// A body that did not overlap a rectangle one frame ago is classified with
/// exactly one edge, and one that did is classified with none.
pub proof fn lemma_side_exactly_one(prev: Position, b: HitBox, q: Position, c: HitBox)
    ensures
        side_of(prev, b, q, c) is None <==> overlaps(prev, b, q, c),
        side_of(prev, b, q, c) == Some(Collision::Left) <==> prev.x + b.width <= q.x,
        side_of(prev, b, q, c) == Some(Collision::Right) <==> (prev.x + b.width > q.x
            && prev.x >= q.x + c.width),
        side_of(prev, b, q, c) == Some(Collision::Top) <==> (overlaps_horizontally(prev, b, q, c)
            && prev.y + b.height <= q.y),
        side_of(prev, b, q, c) == Some(Collision::Bottom) <==> (overlaps_horizontally(prev, b, q, c)
            && prev.y + b.height > q.y && prev.y >= q.y + c.height),
{
}

/// Whether the two rectangles overlap when projected on the x axis.
pub open spec fn overlaps_horizontally(p: Position, b: HitBox, q: Position, c: HitBox) -> bool {
    p.x < q.x + c.width && p.x + b.width > q.x
}

} // verus!
