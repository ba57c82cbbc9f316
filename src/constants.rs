pub mod canvas;
pub mod controls;
pub mod player;
pub mod weapon;
