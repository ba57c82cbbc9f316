use vstd::prelude::*;
use crate::components::collision::{collision_side, intersects, overlaps, side_of, Collision};
use crate::components::hit_box::HitBox;
use crate::components::position::{fits, Position, Velocity};
use crate::components::trajectory::{throw_velocity, throw_velocity_of, within_limit};
use crate::constants::canvas::Canvas;
use crate::constants::weapon::{Weapon as WeaponConfig, ANGULAR_VELOCITY};
use crate::sprites::platform::{snap_fits, snap_position, snap_velocity, snaps_fit, Platform};
use crate::sprites::player::Player;
use crate::sprites::{draw, DrawCommand, Motion, Sprite};

verus! {

/// The side of the weapon that hit a surface and holds it there.
#[derive(Clone, Copy, Debug, PartialEq, Eq, Structural)]
pub enum StuckOn {
    Left,
    Right,
    Top,
    Bottom,
}

#[derive(Clone, Copy, Debug, PartialEq, Eq, Structural)]
pub enum WeaponState {
    /// Held by the player, at a fixed offset from it.
    Carried,
    /// Flying under gravity and spinning.
    Thrown,
    /// Embedded in a platform or in the floor, frozen in place.
    Stuck(StuckOn),
}

/// The side of the weapon that sticks after it strikes edge `side` of a
/// platform: the one facing that edge.
pub open spec fn stuck_on(side: Collision) -> StuckOn {
    match side {
        Collision::Left => StuckOn::Right,
        Collision::Right => StuckOn::Left,
        Collision::Top => StuckOn::Bottom,
        Collision::Bottom => StuckOn::Top,
    }
}

/// A weapon that the player carries, throws at a point, and picks up again.
pub struct Weapon {
    pub state: WeaponState,
    /// Rotation, in microradians.
    pub angle: i64,
    /// Rotation added each frame of flight, in microradians.
    pub angular_velocity: i64,
    pub position: Position,
    pub previous_position: Position,
    pub width: i64,
    pub height: i64,
    pub collision_box: HitBox,
    pub velocity: Velocity,
    pub color: String,
}

impl Weapon {
    /// A carried weapon at `(x, y)`, not rotated; its hit box is its drawn
    /// size unless one is given.
    pub fn new(x: i64, y: i64, width: i64, height: i64, collision_box: Option<HitBox>, color: String) -> (r: Weapon)
        ensures
            r.state == WeaponState::Carried,
            r.angle == 0,
            r.angular_velocity == ANGULAR_VELOCITY,
            r.position == (Position { x, y }),
            r.previous_position == (Position { x, y }),
            r.width == width,
            r.height == height,
            r.collision_box == (match collision_box {
                Some(hit_box) => hit_box,
                None => HitBox { width, height },
            }),
            r.velocity == (Velocity { x: 0, y: 0 }),
            r.color@ == color@,
    {
        Weapon {
            state: WeaponState::Carried,
            angle: 0,
            angular_velocity: ANGULAR_VELOCITY,
            position: Position::new(x, y),
            previous_position: Position::new(x, y),
            width,
            height,
            collision_box: match collision_box {
                Some(hit_box) => hit_box,
                None => HitBox::new(width, height),
            },
            velocity: Velocity::new(0, 0),
            color,
        }
    }

    /// Sets the velocity of a throw at `(target_x, target_y)`: pointed from
    /// the weapon at the target, with a speed of a tenth of the distance,
    /// capped at twenty pixels per frame.
    pub fn throw(&mut self, target_x: i64, target_y: i64)
        requires
            within_limit(old(self).position.x as int),
            within_limit(old(self).position.y as int),
            within_limit(target_x as int),
            within_limit(target_y as int),
        ensures
            *final(self) == old(self).throw_toward(target_x, target_y),
    {
        let v = throw_velocity_of(target_x - self.position.x, target_y - self.position.y);
        self.velocity.set_x(v.x);
        self.velocity.set_y(v.y);
    }

    /// The weapon with the velocity of a throw at `(target_x, target_y)`.
    pub open spec fn throw_toward(self, target_x: i64, target_y: i64) -> Weapon {
        let v = throw_velocity(target_x - self.position.x, target_y - self.position.y);
        Weapon { velocity: Velocity { x: v.0 as i64, y: v.1 as i64 }, ..self }
    }

    /// Moves a carried weapon to its place beside `player`.
    pub fn follow_player(&mut self, player: &Player, config: &WeaponConfig)
        requires
            fits(player.position.x + config.sprite.x_offset),
            fits(player.position.y + config.sprite.y_offset),
        ensures
            *final(self) == (Weapon {
                position: Position {
                    x: (player.position.x + config.sprite.x_offset) as i64,
                    y: (player.position.y + config.sprite.y_offset) as i64,
                },
                ..*old(self)
            }),
    {
        self.position.set_x(player.position.x + config.sprite.x_offset);
        self.position.set_y(player.position.y + config.sprite.y_offset);
    }

    /// The weapon as the renderer shows it: turned by its angle while carried
    /// or stuck, unturned in flight.
    pub fn draw(&self) -> (r: DrawCommand)
        ensures
            r.x == self.position.x,
            r.y == self.position.y,
            r.width == self.width,
            r.height == self.height,
            r.color@ == self.color@,
            r.rotation == if self.state == WeaponState::Thrown {
                0
            } else {
                self.angle
            },
    {
        let mut command = draw(self);
        match self.state {
            WeaponState::Carried | WeaponState::Stuck(_) => {
                command.rotation = self.angle;
            },
            WeaponState::Thrown => {},
        }
        command
    }

    pub fn state(&self) -> (r: &WeaponState)
        ensures
            *r == self.state,
    {
        &self.state
    }

    pub fn set_state(&mut self, state: WeaponState)
        ensures
            *final(self) == (Weapon { state, ..*old(self) }),
    {
        self.state = state;
    }

    /// The weapon after colliding with one platform: unchanged unless their
    /// hit boxes overlap and the struck edge can be told; otherwise snapped
    /// flush against that edge and stuck there by its facing side.
    pub open spec fn resolve_one(self, p: Platform) -> Weapon {
        if !overlaps(self.position, self.collision_box, p.position, p.collision_box) {
            self
        } else {
            match side_of(self.previous_position, self.collision_box, p.position, p.collision_box) {
                None => self,
                Some(side) => Weapon {
                    position: snap_position(self.position, self.collision_box, p, side),
                    velocity: snap_velocity(self.velocity, side),
                    state: WeaponState::Stuck(stuck_on(side)),
                    ..self
                },
            }
        }
    }

    /// The weapon after colliding with the first `n` platforms, in order.
    pub open spec fn resolve_prefix(self, ps: Seq<Platform>, n: nat) -> Weapon
        decreases n,
    {
        if n == 0 {
            self
        } else {
            self.resolve_prefix(ps, (n - 1) as nat).resolve_one(ps[n - 1])
        }
    }

    /// Whether this frame's update stays within the range of `i64`.
    pub open spec fn update_fits(self, player: Player, platforms: Seq<Platform>, canvas: Canvas, config: WeaponConfig) -> bool {
        match self.state {
            WeaponState::Carried => {
                &&& fits(player.position.x + config.sprite.x_offset)
                &&& fits(player.position.y + config.sprite.y_offset)
            },
            WeaponState::Thrown => self.physics_fits(canvas) && self.resolve_fits(platforms),
            WeaponState::Stuck(_) => true,
        }
    }

    /// The weapon after this frame's update, which depends on its state.
    pub open spec fn updated(self, player: Player, platforms: Seq<Platform>, canvas: Canvas, config: WeaponConfig) -> Weapon {
        match self.state {
            WeaponState::Carried => Weapon {
                position: Position {
                    x: (player.position.x + config.sprite.x_offset) as i64,
                    y: (player.position.y + config.sprite.y_offset) as i64,
                },
                ..self
            },
            WeaponState::Thrown => self.physics_step(canvas).resolved(platforms),
            WeaponState::Stuck(_) => self,
        }
    }

    /// Whether this frame's update stays within the range of `i64`.
    pub fn can_update(&self, player: &Player, platforms: &Vec<Platform>, canvas: &Canvas, config: &WeaponConfig) -> (r: bool)
        ensures
            r == self.update_fits(*player, platforms@, *canvas, *config),
    {
        match self.state {
            WeaponState::Carried => {
                player.position.x.checked_add(config.sprite.x_offset).is_some()
                    && player.position.y.checked_add(config.sprite.y_offset).is_some()
            },
            WeaponState::Thrown => self.can_apply_physics(canvas) && snaps_fit(&self.collision_box, platforms),
            WeaponState::Stuck(_) => true,
        }
    }

    /// One frame of the weapon: a carried weapon follows the player, a thrown
    /// one flies and may hit a platform or the floor, a stuck one stays put.
    pub fn update(&mut self, player: &Player, platforms: &Vec<Platform>, canvas: &Canvas, config: &WeaponConfig)
        requires
            old(self).update_fits(*player, platforms@, *canvas, *config),
        ensures
            *final(self) == old(self).updated(*player, platforms@, *canvas, *config),
    {
        match self.state {
            WeaponState::Carried => self.follow_player(player, config),
            WeaponState::Thrown => {
                self.apply_physics(canvas);
                self.resolve_collisions(platforms);
            },
            WeaponState::Stuck(_) => {},
        }
    }

    /// Whether the next physics step stays within the range of `i64`.
    pub fn can_apply_physics(&self, canvas: &Canvas) -> (r: bool)
        ensures
            r == self.physics_fits(*canvas),
    {
        let x = self.position.x as i128 + self.velocity.x as i128;
        let y = self.position.y as i128 + self.velocity.y as i128;
        let vy = self.velocity.y as i128 + canvas.gravity as i128;
        let floor = canvas.height as i128 - self.height as i128;
        let angle = self.angle as i128 + self.angular_velocity as i128;
        let grounded = y + self.height as i128 + self.velocity.y as i128 >= canvas.height as i128;
        let lo = i64::MIN as i128;
        let hi = i64::MAX as i128;
        lo <= x && x <= hi && lo <= y && y <= hi && lo <= angle && angle <= hi && (if grounded {
            lo <= floor && floor <= hi
        } else {
            lo <= vy && vy <= hi
        })
    }
}

impl Sprite for Weapon {
    open spec fn spec_position(&self) -> Position {
        self.position
    }

    open spec fn spec_previous_position(&self) -> Position {
        self.previous_position
    }

    open spec fn spec_width(&self) -> i64 {
        self.width
    }

    open spec fn spec_height(&self) -> i64 {
        self.height
    }

    open spec fn spec_collision_box(&self) -> HitBox {
        self.collision_box
    }

    open spec fn spec_color(&self) -> Seq<char> {
        self.color@
    }

    fn position(&self) -> (r: &Position) {
        &self.position
    }

    fn previous_position(&self) -> (r: &Position) {
        &self.previous_position
    }

    fn width(&self) -> (r: i64) {
        self.width
    }

    fn height(&self) -> (r: i64) {
        self.height
    }

    fn collision_box(&self) -> (r: &HitBox) {
        &self.collision_box
    }

    fn color(&self) -> (r: &str) {
        self.color.as_str()
    }
}

impl Motion for Weapon {
    open spec fn physics_fits(&self, canvas: Canvas) -> bool {
        &&& fits(self.position.x + self.velocity.x)
        &&& fits(self.position.y + self.velocity.y)
        &&& fits(self.angle + self.angular_velocity)
        &&& if self.position.y + self.velocity.y + self.height + self.velocity.y < canvas.height {
            fits(self.velocity.y + canvas.gravity)
        } else {
            fits(canvas.height - self.height)
        }
    }

    /// The position advances by the velocity and the weapon spins on. Gravity
    /// then accelerates it, unless the next step would reach the floor: then
    /// it comes to rest on the floor and sticks there by its bottom.
    open spec fn physics_step(&self, canvas: Canvas) -> Weapon {
        let pos = Position {
            x: (self.position.x + self.velocity.x) as i64,
            y: (self.position.y + self.velocity.y) as i64,
        };
        let angle = (self.angle + self.angular_velocity) as i64;
        if pos.y + self.height + self.velocity.y < canvas.height {
            Weapon {
                previous_position: self.position,
                position: pos,
                velocity: Velocity { x: self.velocity.x, y: (self.velocity.y + canvas.gravity) as i64 },
                angle,
                ..*self
            }
        } else {
            Weapon {
                previous_position: self.position,
                position: Position { x: pos.x, y: (canvas.height - self.height) as i64 },
                velocity: Velocity { x: self.velocity.x, y: 0 },
                state: WeaponState::Stuck(StuckOn::Bottom),
                angle,
                ..*self
            }
        }
    }

    open spec fn resolve_fits(&self, platforms: Seq<Platform>) -> bool {
        forall|i: int| 0 <= i < platforms.len() ==> snap_fits(self.collision_box, #[trigger] platforms[i])
    }

    open spec fn resolved(&self, platforms: Seq<Platform>) -> Weapon {
        self.resolve_prefix(platforms, platforms.len())
    }

    fn apply_physics(&mut self, canvas: &Canvas) {
        self.previous_position = self.position;
        self.position.mutate_x(self.velocity.x);
        self.position.mutate_y(self.velocity.y);
        if (self.position.y as i128) + (self.height as i128) + (self.velocity.y as i128) < canvas.height as i128 {
            self.velocity.mutate_y(canvas.gravity);
        } else {
            self.velocity.set_y(0);
            self.position.set_y(canvas.height - self.height);
            self.state = WeaponState::Stuck(StuckOn::Bottom);
        }
        self.angle = self.angle + self.angular_velocity;
    }

    fn resolve_collisions(&mut self, platforms: &Vec<Platform>) {
        let ghost start = *self;
        let mut i: usize = 0;
        while i < platforms.len()
            invariant
                0 <= i <= platforms.len(),
                *self == start.resolve_prefix(platforms@, i as nat),
                self.collision_box == start.collision_box,
                start.resolve_fits(platforms@),
            decreases platforms.len() - i,
        {
            let platform = &platforms[i];
            if intersects(&*self, platform) {
                match collision_side(&*self, platform) {
                    Some(side) => {
                        platform.snap(&mut self.position, &mut self.velocity, &self.collision_box, side);
                        self.state = WeaponState::Stuck(match side {
                            Collision::Left => StuckOn::Right,
                            Collision::Right => StuckOn::Left,
                            Collision::Top => StuckOn::Bottom,
                            Collision::Bottom => StuckOn::Top,
                        });
                    },
                    None => {},
                }
            }
            i += 1;
        }
    }
}


/// A thrown weapon that was clear of a platform when the frame started is
/// clear of it once its collision with that platform is resolved.
pub proof fn lemma_weapon_resolution_clears(weapon: Weapon, p: Platform)
    requires
        !overlaps(weapon.previous_position, weapon.collision_box, p.position, p.collision_box),
        snap_fits(weapon.collision_box, p),
    ensures
        !overlaps(weapon.resolved(seq![p]).position, weapon.collision_box, p.position, p.collision_box),
{
    reveal_with_fuel(Weapon::resolve_prefix, 2);
}

/// Integration that reaches the floor lays the weapon on it, stops its fall
/// and sticks it there by its bottom.
pub proof fn lemma_weapon_ground_clamp(weapon: Weapon, canvas: Canvas)
    requires
        weapon.physics_fits(canvas),
        weapon.position.y + weapon.velocity.y + weapon.height + weapon.velocity.y >= canvas.height,
    ensures
        weapon.physics_step(canvas).velocity.y == 0,
        weapon.physics_step(canvas).position.y == canvas.height - weapon.height,
        weapon.physics_step(canvas).state == WeaponState::Stuck(StuckOn::Bottom),
{
}

} // verus!
