use vstd::prelude::*;
use crate::components::hit_box::HitBox;
use crate::components::collision::Collision;
use crate::components::position::{fits, Position, Velocity};
use crate::constants::canvas::Canvas;
use crate::sprites::{Motion, Sprite};

verus! {

/// An immovable obstacle, offered to the moving entities as a collision
/// target.
pub struct Platform {
    pub position: Position,
    pub previous_position: Position,
    pub width: i64,
    pub height: i64,
    pub collision_box: HitBox,
    pub color: String,
}

impl Platform {
    /// A platform at `(x, y)`; its hit box is its drawn size unless one is
    /// given.
    pub fn new(x: i64, y: i64, width: i64, height: i64, collision_box: Option<HitBox>, color: String) -> (r: Platform)
        ensures
            r.position == (Position { x, y }),
            r.previous_position == (Position { x, y }),
            r.width == width,
            r.height == height,
            r.collision_box == (match collision_box {
                Some(hit_box) => hit_box,
                None => HitBox { width, height },
            }),
            r.color@ == color@,
    {
        Platform {
            position: Position::new(x, y),
            previous_position: Position::new(x, y),
            width,
            height,
            collision_box: match collision_box {
                Some(hit_box) => hit_box,
                None => HitBox::new(width, height),
            },
            color,
        }
    }
}

impl Sprite for Platform {
    open spec fn spec_position(&self) -> Position {
        self.position
    }

    open spec fn spec_previous_position(&self) -> Position {
        self.previous_position
    }

    open spec fn spec_width(&self) -> i64 {
        self.width
    }

    open spec fn spec_height(&self) -> i64 {
        self.height
    }

    open spec fn spec_collision_box(&self) -> HitBox {
        self.collision_box
    }

    open spec fn spec_color(&self) -> Seq<char> {
        self.color@
    }

    fn position(&self) -> (r: &Position) {
        &self.position
    }

    fn previous_position(&self) -> (r: &Position) {
        &self.previous_position
    }

    fn width(&self) -> (r: i64) {
        self.width
    }

    fn height(&self) -> (r: i64) {
        self.height
    }

    fn collision_box(&self) -> (r: &HitBox) {
        &self.collision_box
    }

    fn color(&self) -> (r: &str) {
        self.color.as_str()
    }
}

impl Motion for Platform {
    open spec fn physics_fits(&self, canvas: Canvas) -> bool {
        true
    }

    /// A platform never moves.
    open spec fn physics_step(&self, canvas: Canvas) -> Platform {
        *self
    }

    open spec fn resolve_fits(&self, platforms: Seq<Platform>) -> bool {
        true
    }

    /// A platform never collides.
    open spec fn resolved(&self, platforms: Seq<Platform>) -> Platform {
        *self
    }

    fn apply_physics(&mut self, canvas: &Canvas) {
    }

    fn resolve_collisions(&mut self, platforms: &Vec<Platform>) {
    }
}



/// Whether snapping a body with hit box `b` against any edge of `p` stays
/// within the range of `i64`.
pub open spec fn snap_fits(b: HitBox, p: Platform) -> bool {
    &&& fits(p.position.x - b.width)
    &&& fits(p.position.x + p.collision_box.width)
    &&& fits(p.position.y - b.height)
    &&& fits(p.position.y + p.collision_box.height)
}

/// Where a body with hit box `b` at `pos` is placed after striking edge
/// `side` of `p`: flush against that edge, on the side it came from.
pub open spec fn snap_position(pos: Position, b: HitBox, p: Platform, side: Collision) -> Position {
    match side {
        Collision::Left => Position { x: (p.position.x - b.width) as i64, y: pos.y },
        Collision::Right => Position { x: (p.position.x + p.collision_box.width) as i64, y: pos.y },
        Collision::Top => Position { x: pos.x, y: (p.position.y - b.height) as i64 },
        Collision::Bottom => Position { x: pos.x, y: (p.position.y + p.collision_box.height) as i64 },
    }
}

/// The velocity after striking edge `side`: the component across that edge
/// is stopped.
pub open spec fn snap_velocity(vel: Velocity, side: Collision) -> Velocity {
    if side.spec_is_horizontal() {
        Velocity { x: 0, y: vel.y }
    } else {
        Velocity { x: vel.x, y: 0 }
    }
}

/// Whether snapping a body with hit box `b` against every edge of every
/// platform stays within the range of `i64`.
pub fn snaps_fit(b: &HitBox, platforms: &Vec<Platform>) -> (r: bool)
    ensures
        r == forall|i: int| 0 <= i < platforms@.len() ==> snap_fits(*b, #[trigger] platforms@[i]),
{
    let mut i: usize = 0;
    while i < platforms.len()
        invariant
            0 <= i <= platforms.len(),
            forall|j: int| 0 <= j < i ==> snap_fits(*b, #[trigger] platforms@[j]),
        decreases platforms.len() - i,
    {
        let lo = i64::MIN as i128;
        let hi = i64::MAX as i128;
        let p = &platforms[i];
        let left = p.position.x as i128 - b.width as i128;
        let right = p.position.x as i128 + p.collision_box.width as i128;
        let top = p.position.y as i128 - b.height as i128;
        let bottom = p.position.y as i128 + p.collision_box.height as i128;
        if !(lo <= left && left <= hi && lo <= right && right <= hi && lo <= top && top <= hi && lo <= bottom
            && bottom <= hi) {
            return false;
        }
        i += 1;
    }
    true
}

impl Platform {
    /// Places a body that struck edge `side` flush against it and stops its
    /// motion across that edge.
    pub fn snap(&self, position: &mut Position, velocity: &mut Velocity, b: &HitBox, side: Collision)
        requires
            snap_fits(*b, *self),
        ensures
            *final(position) == snap_position(*old(position), *b, *self, side),
            *final(velocity) == snap_velocity(*old(velocity), side),
    {
        match side {
            Collision::Left => {
                velocity.set_x(0);
                position.set_x(self.position.x - b.width);
            },
            Collision::Right => {
                velocity.set_x(0);
                position.set_x(self.position.x + self.collision_box.width);
            },
            Collision::Top => {
                velocity.set_y(0);
                position.set_y(self.position.y - b.height);
            },
            Collision::Bottom => {
                velocity.set_y(0);
                position.set_y(self.position.y + self.collision_box.height);
            },
        }
    }
}

} // verus!
