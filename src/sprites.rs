pub mod platform;
pub mod player;
pub mod weapon;

use vstd::prelude::*;
use vstd::string::StringExecFns;
use crate::components::hit_box::HitBox;
use crate::components::position::Position;
use crate::constants::canvas::Canvas;
use crate::sprites::platform::Platform;

verus! {

/// One rectangle for the renderer: where, how large, in which colour, and
/// turned by how many microradians about its centre.
pub struct DrawCommand {
    pub x: i64,
    pub y: i64,
    pub width: i64,
    pub height: i64,
    pub color: String,
    pub rotation: i64,
}

/// What every entity of the game offers: where it is, where it was at the
/// start of the frame, its drawn size, its hit box and its colour.
pub trait Sprite: Sized {
    spec fn spec_position(&self) -> Position;

    spec fn spec_previous_position(&self) -> Position;

    spec fn spec_width(&self) -> i64;

    spec fn spec_height(&self) -> i64;

    spec fn spec_collision_box(&self) -> HitBox;

    spec fn spec_color(&self) -> Seq<char>;

    fn position(&self) -> (r: &Position)
        ensures
            *r == self.spec_position(),
    ;

    fn previous_position(&self) -> (r: &Position)
        ensures
            *r == self.spec_previous_position(),
    ;

    fn width(&self) -> (r: i64)
        ensures
            r == self.spec_width(),
    ;

    fn height(&self) -> (r: i64)
        ensures
            r == self.spec_height(),
    ;

    fn collision_box(&self) -> (r: &HitBox)
        ensures
            *r == self.spec_collision_box(),
    ;

    fn color(&self) -> (r: &str)
        ensures
            r@ == self.spec_color(),
    ;
}

/// The two per-frame operations of an entity: one physics step, then the
/// response to the platforms it ran into.
pub trait Motion: Sprite {
    /// Whether one physics step stays within the range of `i64`.
    spec fn physics_fits(&self, canvas: Canvas) -> bool;

    /// The entity after one physics step.
    spec fn physics_step(&self, canvas: Canvas) -> Self;

    /// Whether resolving against `platforms` stays within the range of `i64`.
    spec fn resolve_fits(&self, platforms: Seq<Platform>) -> bool;

    /// The entity after resolving its collisions with `platforms`.
    spec fn resolved(&self, platforms: Seq<Platform>) -> Self;

    fn apply_physics(&mut self, canvas: &Canvas)
        requires
            old(self).physics_fits(*canvas),
        ensures
            *final(self) == old(self).physics_step(*canvas),
    ;

    fn resolve_collisions(&mut self, platforms: &Vec<Platform>)
        requires
            old(self).resolve_fits(platforms@),
        ensures
            *final(self) == old(self).resolved(platforms@),
    ;
}

/// The entity drawn unrotated at its position and drawn size.
pub fn draw<S: Sprite>(sprite: &S) -> (r: DrawCommand)
    ensures
        r.x == sprite.spec_position().x,
        r.y == sprite.spec_position().y,
        r.width == sprite.spec_width(),
        r.height == sprite.spec_height(),
        r.color@ == sprite.spec_color(),
        r.rotation == 0,
{
    let position = sprite.position();
    DrawCommand {
        x: position.x,
        y: position.y,
        width: sprite.width(),
        height: sprite.height(),
        color: String::from_str(sprite.color()),
        rotation: 0,
    }
}

} // verus!
