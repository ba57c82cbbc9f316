use vstd::prelude::*;
use crate::constants::canvas::UNITS_PER_PIXEL;
use crate::constants::player::Player;

verus! {

/// Spin of a thrown weapon per frame, in microradians.
pub const ANGULAR_VELOCITY: i64 = 10_000;

/// One full turn, in microradians (2π rounded to the nearest microradian).
pub const FULL_TURN: i64 = 6_283_185;

/// A throw moves the weapon one pixel per frame for each this many pixels
/// of distance to the target...
pub const THROW_DIVISOR: i64 = 10;

/// ...up to this speed, in units per frame.
pub const THROW_MAX_SPEED: i64 = 20 * UNITS_PER_PIXEL;

/// Configuration of the weapon.
#[derive(Clone, Copy, Debug, PartialEq, Eq, Structural)]
pub struct Weapon {
    pub sprite: WeaponSprite,
}

/// Drawn size of the weapon, and where it sits relative to the player that
/// carries it.
#[derive(Clone, Copy, Debug, PartialEq, Eq, Structural)]
pub struct WeaponSprite {
    pub width: i64,
    pub height: i64,
    pub x_offset: i64,
    pub y_offset: i64,
}

impl Weapon {
    /// The standard weapon, 30 by 100 pixels, carried at the right edge of
    /// the player and a fifth of the way down.
    pub fn standard(player: &Player) -> (r: Weapon)
        requires
            0 <= player.sprite.height,
        ensures
            r.sprite.width == 30 * UNITS_PER_PIXEL,
            r.sprite.height == 100 * UNITS_PER_PIXEL,
            r.sprite.x_offset == player.sprite.width,
            r.sprite.y_offset == player.sprite.height / 5,
    {
        Weapon {
            sprite: WeaponSprite {
                width: 30 * UNITS_PER_PIXEL,
                height: 100 * UNITS_PER_PIXEL,
                x_offset: player.sprite.width,
                y_offset: player.sprite.height / 5,
            },
        }
    }

    pub fn sprite(&self) -> (r: &WeaponSprite)
        ensures
            *r == self.sprite,
    {
        &self.sprite
    }
}

impl WeaponSprite {
    pub fn width(&self) -> (r: i64)
        ensures
            r == self.width,
    {
        self.width
    }

    pub fn height(&self) -> (r: i64)
        ensures
            r == self.height,
    {
        self.height
    }

    pub fn x_offset(&self) -> (r: i64)
        ensures
            r == self.x_offset,
    {
        self.x_offset
    }

    pub fn y_offset(&self) -> (r: i64)
        ensures
            r == self.y_offset,
    {
        self.y_offset
    }
}

} // verus!
