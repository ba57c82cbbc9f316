use vstd::prelude::*;
use crate::components::collision::{collision_side, intersects, overlaps, side_of};
use crate::components::hit_box::HitBox;
use crate::components::position::{fits, Position, Velocity};
use crate::components::trajectory::{within_limit, COORD_LIMIT};
use crate::constants::canvas::Canvas;
use crate::constants::controls::{Keys, Mouse, MouseState};
use crate::constants::player::Player as PlayerConfig;
use crate::constants::weapon::Weapon as WeaponConfig;
use crate::sprites::platform::{snap_fits, snap_position, snap_velocity, snaps_fit, Platform};
use crate::sprites::weapon::{StuckOn, Weapon, WeaponState};
use crate::sprites::{Motion, Sprite};

verus! {

/// The character controlled by the keyboard and the mouse.
pub struct Player {
    /// Set by a jump, cleared once the vertical velocity is back to zero.
    pub jumping: bool,
    pub position: Position,
    pub previous_position: Position,
    pub width: i64,
    pub height: i64,
    pub collision_box: HitBox,
    pub velocity: Velocity,
    pub color: String,
}

impl Player {
    /// A player at rest at `(x, y)`; its hit box is its drawn size unless
    /// one is given.
    pub fn new(x: i64, y: i64, width: i64, height: i64, collision_box: Option<HitBox>, color: String) -> (r: Player)
        ensures
            !r.jumping,
            r.position == (Position { x, y }),
            r.previous_position == (Position { x, y }),
            r.width == width,
            r.height == height,
            r.collision_box == (match collision_box {
                Some(hit_box) => hit_box,
                None => HitBox { width, height },
            }),
            r.velocity == (Velocity { x: 0, y: 0 }),
            r.color@ == color@,
    {
        Player {
            jumping: false,
            position: Position::new(x, y),
            previous_position: Position::new(x, y),
            width,
            height,
            collision_box: match collision_box {
                Some(hit_box) => hit_box,
                None => HitBox::new(width, height),
            },
            velocity: Velocity::new(0, 0),
            color,
        }
    }

    /// The player after colliding with one platform: unchanged unless their
    /// hit boxes overlap and the struck edge can be told; otherwise snapped
    /// flush against that edge.
    pub open spec fn resolve_one(self, p: Platform) -> Player {
        if !overlaps(self.position, self.collision_box, p.position, p.collision_box) {
            self
        } else {
            match side_of(self.previous_position, self.collision_box, p.position, p.collision_box) {
                None => self,
                Some(side) => Player {
                    position: snap_position(self.position, self.collision_box, p, side),
                    velocity: snap_velocity(self.velocity, side),
                    ..self
                },
            }
        }
    }

    /// The player after colliding with the first `n` platforms, in order.
    pub open spec fn resolve_prefix(self, ps: Seq<Platform>, n: nat) -> Player
        decreases n,
    {
        if n == 0 {
            self
        } else {
            self.resolve_prefix(ps, (n - 1) as nat).resolve_one(ps[n - 1])
        }
    }

    /// The horizontal velocity that the held keys ask for, and the jump
    /// state and vertical velocity after a jump request is considered.
    pub open spec fn keys_applied(self, keys: Keys, config: PlayerConfig) -> Player {
        let vx = if keys.d.pressed {
            config.velocity.x
        } else if keys.a.pressed {
            (-config.velocity.x) as i64
        } else {
            0
        };
        if keys.w.pressed && !self.jumping && self.velocity.y == 0 {
            Player { jumping: true, velocity: Velocity { x: vx, y: config.velocity.jump }, ..self }
        } else if self.velocity.y == 0 {
            Player { jumping: false, velocity: Velocity { x: vx, y: 0 }, ..self }
        } else {
            Player { velocity: Velocity { x: vx, y: self.velocity.y }, ..self }
        }
    }

    /// Sets the velocity from the held keys: right wins over left, and a jump
    /// starts only from rest, and only once per landing.
    pub fn apply_keys(&mut self, keys: &Keys, config: &PlayerConfig)
        requires
            config.velocity.x > i64::MIN,
        ensures
            *final(self) == old(self).keys_applied(*keys, *config),
    {
        if keys.d.pressed {
            self.velocity.set_x(config.velocity.x);
        } else if keys.a.pressed {
            self.velocity.set_x(-config.velocity.x);
        } else {
            self.velocity.set_x(0);
        }
        if keys.w.pressed && !self.jumping && self.velocity.y == 0 {
            self.jumping = true;
            self.velocity.set_y(config.velocity.jump);
        } else if self.velocity.y == 0 {
            self.jumping = false;
        }
    }

    /// Where the player lands when picking up a weapon stuck by its side
    /// `stuck`: beside the weapon, away from the surface it is stuck in.
    pub open spec fn teleported(self, weapon: Weapon, stuck: StuckOn) -> Player {
        let beside = weapon.position.x - self.collision_box.width;
        let level = weapon.position.y + weapon.height - self.height;
        let position = match stuck {
            StuckOn::Left => Position { x: weapon.position.x, y: level as i64 },
            StuckOn::Right => Position { x: beside as i64, y: level as i64 },
            StuckOn::Top => Position { x: beside as i64, y: weapon.position.y },
            StuckOn::Bottom => Position { x: beside as i64, y: level as i64 },
        };
        Player { position, ..self }
    }

    /// Whether handling the pending right click stays within the limits of
    /// the arithmetic.
    pub open spec fn clicks_fit(self, weapon: Weapon, mouse: Mouse, config: PlayerConfig, weapon_config: WeaponConfig) -> bool {
        mouse.right.pressed ==> match weapon.state {
            WeaponState::Carried => {
                &&& within_limit(weapon.position.x as int)
                &&& within_limit(weapon.position.y as int)
                &&& within_limit(mouse.right.x as int)
                &&& within_limit(mouse.right.y as int)
            },
            WeaponState::Thrown => true,
            WeaponState::Stuck(_) => {
                &&& fits(weapon.position.x - self.collision_box.width)
                &&& fits(weapon.position.y + weapon.height - self.height)
                &&& fits(config.sprite.width + weapon_config.sprite.width)
            },
        }
    }

    /// Whether handling the pending right click stays within the limits of
    /// the arithmetic.
    pub fn can_apply_clicks(&self, weapon: &Weapon, mouse: &Mouse, config: &PlayerConfig, weapon_config: &WeaponConfig) -> (r: bool)
        ensures
            r == self.clicks_fit(*weapon, *mouse, *config, *weapon_config),
    {
        if !mouse.right.pressed {
            return true;
        }
        let lo = i64::MIN as i128;
        let hi = i64::MAX as i128;
        match weapon.state {
            WeaponState::Carried => {
                let limit = COORD_LIMIT;
                let (wx, wy) = (weapon.position.x, weapon.position.y);
                let (mx, my) = (mouse.right.x, mouse.right.y);
                -limit <= wx && wx <= limit && -limit <= wy && wy <= limit && -limit <= mx && mx <= limit
                    && -limit <= my && my <= limit
            },
            WeaponState::Thrown => true,
            WeaponState::Stuck(_) => {
                let beside = weapon.position.x as i128 - self.collision_box.width as i128;
                let level = weapon.position.y as i128 + weapon.height as i128 - self.height as i128;
                let reach = config.sprite.width as i128 + weapon_config.sprite.width as i128;
                lo <= beside && beside <= hi && lo <= level && level <= hi && lo <= reach && reach <= hi
            },
        }
    }

    fn teleport_to_weapon(&mut self, weapon: &Weapon, stuck_on: StuckOn)
        requires
            fits(weapon.position.x - old(self).collision_box.width),
            fits(weapon.position.y + weapon.height - old(self).height),
        ensures
            *final(self) == old(self).teleported(*weapon, stuck_on),
    {
        let level = ((weapon.position.y as i128) + (weapon.height as i128) - (self.height as i128)) as i64;
        match stuck_on {
            StuckOn::Left => {
                self.position.set_x(weapon.position.x);
                self.position.set_y(level);
            },
            StuckOn::Right => {
                self.position.set_x(weapon.position.x - self.collision_box.width);
                self.position.set_y(level);
            },
            StuckOn::Top => {
                self.position.set_x(weapon.position.x - self.collision_box.width);
                self.position.set_y(weapon.position.y);
            },
            StuckOn::Bottom => {
                self.position.set_x(weapon.position.x - self.collision_box.width);
                self.position.set_y(level);
            },
        }
    }

    /// Handles a pending right click, once: a carried weapon is thrown at
    /// the click and the player's hit box shrinks to the player alone; a
    /// stuck weapon is picked up, the player moving beside it and its hit box
    /// growing to hold the weapon again; a weapon in flight ignores it.
    pub fn apply_clicks(&mut self, weapon: &mut Weapon, mouse: &mut Mouse, config: &PlayerConfig, weapon_config: &WeaponConfig)
        requires
            old(self).clicks_fit(*old(weapon), *old(mouse), *config, *weapon_config),
        ensures
            !old(mouse).right.pressed ==> *final(self) == *old(self) && *final(weapon) == *old(weapon)
                && *final(mouse) == *old(mouse),
            old(mouse).right.pressed ==> *final(mouse) == (Mouse {
                right: MouseState { pressed: false, ..old(mouse).right },
                ..*old(mouse)
            }),
            old(mouse).right.pressed && old(weapon).state == WeaponState::Carried ==> {
                let thrown = old(weapon).throw_toward(old(mouse).right.x, old(mouse).right.y);
                &&& *final(weapon) == (Weapon { state: WeaponState::Thrown, ..thrown })
                &&& *final(self) == (Player {
                    collision_box: HitBox { width: config.sprite.width, ..old(self).collision_box },
                    ..*old(self)
                })
            },
            old(mouse).right.pressed && old(weapon).state == WeaponState::Thrown ==> *final(self)
                == *old(self) && *final(weapon) == *old(weapon),
            forall|stuck: StuckOn| old(mouse).right.pressed && old(weapon).state == WeaponState::Stuck(stuck)
                ==> {
                &&& *final(weapon) == (Weapon { state: WeaponState::Carried, ..*old(weapon) })
                &&& *final(self) == (Player {
                    collision_box: HitBox {
                        width: (config.sprite.width + weapon_config.sprite.width) as i64,
                        ..old(self).collision_box
                    },
                    ..old(self).teleported(*old(weapon), stuck)
                })
            },
    {
        if !mouse.right.pressed {
            return;
        }
        match weapon.state {
            WeaponState::Carried => {
                weapon.throw(mouse.right.x, mouse.right.y);
                weapon.set_state(WeaponState::Thrown);
                self.collision_box.set_width(config.sprite.width);
            },
            WeaponState::Thrown => {},
            WeaponState::Stuck(stuck_on) => {
                self.teleport_to_weapon(weapon, stuck_on);
                weapon.set_state(WeaponState::Carried);
                self.collision_box.set_width(config.sprite.width + weapon_config.sprite.width);
            },
        }
        mouse.right.pressed = false;
    }

    /// Whether this frame's update stays within the range of `i64`.
    pub open spec fn update_fits(self, platforms: Seq<Platform>, canvas: Canvas, config: PlayerConfig) -> bool {
        &&& self.physics_fits(canvas)
        &&& self.resolve_fits(platforms)
        &&& config.velocity.x > i64::MIN
    }

    /// The player after this frame's update; without a snapshot of the keys
    /// the input is skipped for this frame.
    pub open spec fn updated(self, platforms: Seq<Platform>, keys: Option<Keys>, canvas: Canvas, config: PlayerConfig) -> Player {
        let moved = self.physics_step(canvas).resolved(platforms);
        match keys {
            Some(held) => moved.keys_applied(held, config),
            None => moved,
        }
    }

    /// Whether this frame's update stays within the range of `i64`.
    pub fn can_update(&self, platforms: &Vec<Platform>, canvas: &Canvas, config: &PlayerConfig) -> (r: bool)
        ensures
            r == self.update_fits(platforms@, *canvas, *config),
    {
        self.can_apply_physics(canvas) && snaps_fit(&self.collision_box, platforms) && config.velocity.x
            > i64::MIN
    }

    /// One frame of the player, in the order that collision handling needs:
    /// integrate, then resolve against the platforms using the position from
    /// the start of the frame, then take the held keys, if known, into
    /// account.
    pub fn update(&mut self, platforms: &Vec<Platform>, keys: Option<Keys>, canvas: &Canvas, config: &PlayerConfig)
        requires
            old(self).update_fits(platforms@, *canvas, *config),
        ensures
            *final(self) == old(self).updated(platforms@, keys, *canvas, *config),
    {
        self.apply_physics(canvas);
        self.resolve_collisions(platforms);
        match keys {
            Some(held) => self.apply_keys(&held, config),
            None => {},
        }
    }

    /// Whether the next physics step stays within the range of `i64`.
    pub fn can_apply_physics(&self, canvas: &Canvas) -> (r: bool)
        ensures
            r == self.physics_fits(*canvas),
    {
        let x = self.position.x as i128 + self.velocity.x as i128;
        let y = self.position.y as i128 + self.velocity.y as i128;
        let vy = self.velocity.y as i128 + canvas.gravity as i128;
        let grounded = y + self.height as i128 + self.velocity.y as i128 >= canvas.height as i128;
        i64::MIN as i128 <= x && x <= i64::MAX as i128 && i64::MIN as i128 <= y && y
            <= i64::MAX as i128 && (grounded || (i64::MIN as i128 <= vy && vy <= i64::MAX as i128))
    }
}

impl Sprite for Player {
    open spec fn spec_position(&self) -> Position {
        self.position
    }

    open spec fn spec_previous_position(&self) -> Position {
        self.previous_position
    }

    open spec fn spec_width(&self) -> i64 {
        self.width
    }

    open spec fn spec_height(&self) -> i64 {
        self.height
    }

    open spec fn spec_collision_box(&self) -> HitBox {
        self.collision_box
    }

    open spec fn spec_color(&self) -> Seq<char> {
        self.color@
    }

    fn position(&self) -> (r: &Position) {
        &self.position
    }

    fn previous_position(&self) -> (r: &Position) {
        &self.previous_position
    }

    fn width(&self) -> (r: i64) {
        self.width
    }

    fn height(&self) -> (r: i64) {
        self.height
    }

    fn collision_box(&self) -> (r: &HitBox) {
        &self.collision_box
    }

    fn color(&self) -> (r: &str) {
        self.color.as_str()
    }
}

impl Motion for Player {
    open spec fn physics_fits(&self, canvas: Canvas) -> bool {
        &&& fits(self.position.x + self.velocity.x)
        &&& fits(self.position.y + self.velocity.y)
        &&& (self.position.y + self.velocity.y + self.height + self.velocity.y < canvas.height
            ==> fits(self.velocity.y + canvas.gravity))
    }

    /// The position advances by the velocity; gravity then accelerates the
    /// player unless the next step would reach the floor, in which case the
    /// vertical velocity is stopped.
    open spec fn physics_step(&self, canvas: Canvas) -> Player {
        let pos = Position {
            x: (self.position.x + self.velocity.x) as i64,
            y: (self.position.y + self.velocity.y) as i64,
        };
        let vy = if pos.y + self.height + self.velocity.y < canvas.height {
            (self.velocity.y + canvas.gravity) as i64
        } else {
            0
        };
        Player {
            previous_position: self.position,
            position: pos,
            velocity: Velocity { x: self.velocity.x, y: vy },
            ..*self
        }
    }

    open spec fn resolve_fits(&self, platforms: Seq<Platform>) -> bool {
        forall|i: int| 0 <= i < platforms.len() ==> snap_fits(self.collision_box, #[trigger] platforms[i])
    }

    open spec fn resolved(&self, platforms: Seq<Platform>) -> Player {
        self.resolve_prefix(platforms, platforms.len())
    }

    fn apply_physics(&mut self, canvas: &Canvas) {
        self.previous_position = self.position;
        self.position.mutate_x(self.velocity.x);
        self.position.mutate_y(self.velocity.y);
        if (self.position.y as i128) + (self.height as i128) + (self.velocity.y as i128) < canvas.height as i128 {
            self.velocity.mutate_y(canvas.gravity);
        } else {
            self.velocity.set_y(0);
        }
    }

    fn resolve_collisions(&mut self, platforms: &Vec<Platform>) {
        let ghost start = *self;
        let mut i: usize = 0;
        while i < platforms.len()
            invariant
                0 <= i <= platforms.len(),
                *self == start.resolve_prefix(platforms@, i as nat),
                self.collision_box == start.collision_box,
                start.resolve_fits(platforms@),
            decreases platforms.len() - i,
        {
            let platform = &platforms[i];
            if intersects(&*self, platform) {
                match collision_side(&*self, platform) {
                    Some(side) => {
                        platform.snap(&mut self.position, &mut self.velocity, &self.collision_box, side);
                    },
                    None => {},
                }
            }
            i += 1;
        }
    }
}



/// A player that was clear of a platform when the frame started is clear of
/// it once its collision with that platform is resolved.
pub proof fn lemma_player_resolution_clears(player: Player, p: Platform)
    requires
        !overlaps(player.previous_position, player.collision_box, p.position, p.collision_box),
        snap_fits(player.collision_box, p),
    ensures
        !overlaps(player.resolved(seq![p]).position, player.collision_box, p.position, p.collision_box),
{
    reveal_with_fuel(Player::resolve_prefix, 2);
}

/// After the keys are applied, a player flagged as jumping is moving
/// vertically: the flag never outlives the jump.
pub proof fn lemma_jumping_while_airborne(player: Player, keys: Keys, config: PlayerConfig)
    requires
        config.velocity.jump != 0,
    ensures
        player.keys_applied(keys, config).jumping ==> player.keys_applied(keys, config).velocity.y != 0,
{
}

/// Integration that reaches the floor stops the player's vertical motion.
pub proof fn lemma_player_ground_clamp(player: Player, canvas: Canvas)
    requires
        player.physics_fits(canvas),
        player.position.y + player.velocity.y + player.height + player.velocity.y >= canvas.height,
    ensures
        player.physics_step(canvas).velocity.y == 0,
{
}

/// Once a jump has started, no key can start another until the vertical
/// velocity is back to exactly zero.
pub proof fn lemma_no_jump_in_air(player: Player, keys: Keys, config: PlayerConfig)
    requires
        player.jumping,
        player.velocity.y != 0,
    ensures
        player.keys_applied(keys, config).jumping,
        player.keys_applied(keys, config).velocity.y == player.velocity.y,
{
}

} // verus!
