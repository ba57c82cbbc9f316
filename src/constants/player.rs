use vstd::prelude::*;
use crate::constants::canvas::UNITS_PER_PIXEL;

verus! {

/// Configuration of the player: its drawn size and its speeds.
#[derive(Clone, Copy, Debug, PartialEq, Eq, Structural)]
pub struct Player {
    pub sprite: PlayerSprite,
    pub velocity: PlayerVelocity,
}

/// Drawn size of the player.
#[derive(Clone, Copy, Debug, PartialEq, Eq, Structural)]
pub struct PlayerSprite {
    pub width: i64,
    pub height: i64,
}

/// Running speed and (negative, upward) jump impulse of the player.
#[derive(Clone, Copy, Debug, PartialEq, Eq, Structural)]
pub struct PlayerVelocity {
    pub x: i64,
    pub jump: i64,
}

impl Player {
    /// The standard player: 100 by 200 pixels, running at 5 pixels per frame
    /// and jumping with an impulse of 10 pixels per frame upward.
    pub fn standard() -> (r: Player)
        ensures
            r.sprite.width == 100 * UNITS_PER_PIXEL,
            r.sprite.height == 200 * UNITS_PER_PIXEL,
            r.velocity.x == 5 * UNITS_PER_PIXEL,
            r.velocity.jump == -10 * UNITS_PER_PIXEL,
    {
        Player {
            sprite: PlayerSprite { width: 100 * UNITS_PER_PIXEL, height: 200 * UNITS_PER_PIXEL },
            velocity: PlayerVelocity { x: 5 * UNITS_PER_PIXEL, jump: -10 * UNITS_PER_PIXEL },
        }
    }

    pub fn sprite(&self) -> (r: &PlayerSprite)
        ensures
            *r == self.sprite,
    {
        &self.sprite
    }

    pub fn velocity(&self) -> (r: &PlayerVelocity)
        ensures
            *r == self.velocity,
    {
        &self.velocity
    }
}

impl PlayerSprite {
    pub fn width(&self) -> (r: i64)
        ensures
            r == self.width,
    {
        self.width
    }

    pub fn height(&self) -> (r: i64)
        ensures
            r == self.height,
    {
        self.height
    }
}

impl PlayerVelocity {
    pub fn x(&self) -> (r: i64)
        ensures
            r == self.x,
    {
        self.x
    }

    pub fn jump(&self) -> (r: i64)
        ensures
            r == self.jump,
    {
        self.jump
    }
}

} // verus!
