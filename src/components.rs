pub mod collision;
pub mod hit_box;
pub mod position;
pub mod trajectory;
