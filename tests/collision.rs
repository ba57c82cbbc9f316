use hitbox_game::components::collision::{collision_side, intersects, Collision};
use hitbox_game::components::hit_box::HitBox;
use hitbox_game::components::position::Position;
use hitbox_game::sprites::platform::Platform;
use hitbox_game::sprites::player::Player;

fn block(x: i64, y: i64, w: i64, h: i64) -> Platform {
    Platform::new(x, y, w, h, None, "grey".to_string())
}

fn mover(prev: (i64, i64), now: (i64, i64), w: i64, h: i64) -> Player {
    let mut p = Player::new(now.0, now.1, w, h, None, "blue".to_string());
    p.previous_position = Position::new(prev.0, prev.1);
    p
}

#[test]
fn intersects_is_symmetric() {
    let a = block(0, 0, 10, 10);
    let b = block(5, 5, 10, 10);
    let c = block(20, 0, 10, 10);
    assert!(intersects(&a, &b));
    assert!(intersects(&b, &a));
    assert!(!intersects(&a, &c));
    assert!(!intersects(&c, &a));
}

#[test]
fn touching_edges_do_not_intersect() {
    let a = block(0, 0, 10, 10);
    assert!(!intersects(&a, &block(10, 0, 10, 10)));
    assert!(!intersects(&a, &block(-10, 0, 10, 10)));
    assert!(!intersects(&a, &block(0, 10, 10, 10)));
    assert!(!intersects(&a, &block(0, -10, 10, 10)));
    assert!(intersects(&a, &block(9, 9, 10, 10)));
}

#[test]
fn hit_box_not_drawn_size_decides_overlap() {
    let wide = Platform::new(0, 0, 10, 10, Some(HitBox::new(30, 10)), "grey".to_string());
    let b = block(20, 0, 10, 10);
    assert!(intersects(&wide, &b));
    assert!(!intersects(&b, &block(0, 0, 10, 10)));
}

#[test]
fn collision_side_each_edge() {
    let p = block(100, 100, 50, 50);
    assert_eq!(collision_side(&mover((80, 120), (95, 120), 10, 10), &p), Some(Collision::Left));
    assert_eq!(collision_side(&mover((150, 120), (145, 120), 10, 10), &p), Some(Collision::Right));
    assert_eq!(collision_side(&mover((120, 90), (120, 95), 10, 10), &p), Some(Collision::Top));
    assert_eq!(collision_side(&mover((120, 150), (120, 145), 10, 10), &p), Some(Collision::Bottom));
}

#[test]
fn collision_side_none_when_already_embedded() {
    let p = block(100, 100, 50, 50);
    assert_eq!(collision_side(&mover((120, 120), (121, 121), 10, 10), &p), None);
}

#[test]
fn collision_side_prefers_horizontal_on_diagonal() {
    let p = block(100, 100, 50, 50);
    // Up and to the left of the corner: both left and top tests hold.
    assert_eq!(collision_side(&mover((85, 85), (95, 95), 10, 10), &p), Some(Collision::Left));
    // Down and to the right: right beats bottom.
    assert_eq!(collision_side(&mover((150, 150), (145, 145), 10, 10), &p), Some(Collision::Right));
}

#[test]
fn collision_kind_classification() {
    assert!(Collision::Left.is_horizontal());
    assert!(Collision::Right.is_horizontal());
    assert!(!Collision::Top.is_horizontal());
    assert!(Collision::Top.is_vertical());
    assert!(Collision::Bottom.is_vertical());
    assert!(!Collision::Left.is_vertical());
}
