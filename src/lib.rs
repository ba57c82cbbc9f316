//! Physics and collision core of a small 2D platform game.
//!
//! Every coordinate, size and velocity is a fixed-point integer counted in
//! [`constants::canvas::UNITS_PER_PIXEL`] units per pixel, so that gravity and
//! the other sub-pixel quantities are exact.
pub mod components;
pub mod constants;
pub mod events;
pub mod sprites;
