use hitbox_game::components::hit_box::HitBox;
use hitbox_game::components::position::{Position, Velocity};
use hitbox_game::components::trajectory::{ceil_sqrt_of, throw_velocity_of};
use hitbox_game::constants::canvas::{Canvas, UNITS_PER_PIXEL};
use hitbox_game::constants::controls::{Mouse, MouseState};
use hitbox_game::constants::player::Player as PlayerConfig;
use hitbox_game::constants::weapon::{Weapon as WeaponConfig, ANGULAR_VELOCITY, THROW_MAX_SPEED};
use hitbox_game::sprites::platform::Platform;
use hitbox_game::sprites::player::Player;
use hitbox_game::sprites::weapon::{StuckOn, Weapon, WeaponState};
use hitbox_game::sprites::{draw, Motion};

const U: i64 = UNITS_PER_PIXEL;

fn standard_player() -> Player {
    let config = PlayerConfig::standard();
    let weapon = WeaponConfig::standard(&config);
    Player::new(
        40 * U,
        20 * U,
        config.sprite.width,
        config.sprite.height,
        Some(HitBox::new(config.sprite.width + weapon.sprite.width, config.sprite.height)),
        "blue".to_string(),
    )
}

fn standard_weapon(x: i64, y: i64) -> Weapon {
    Weapon::new(x, y, 30 * U, 100 * U, None, "red".to_string())
}

fn click(x: i64, y: i64) -> Mouse {
    let mut mouse = Mouse::new();
    mouse.right = MouseState { pressed: true, x, y };
    mouse
}

fn speed_squared(v: &Velocity) -> i128 {
    (v.x as i128) * (v.x as i128) + (v.y as i128) * (v.y as i128)
}

#[test]
fn throw_thirty_degrees_up_at_300_pixels_is_capped() {
    let mut w = standard_weapon(0, 0);
    // 300 px away, 30 degrees above the horizontal (y grows downward).
    w.throw(259_808, -150_000);
    assert_eq!(w.velocity, Velocity::new(17_320, -9_999));
    let s = speed_squared(&w.velocity);
    let c = THROW_MAX_SPEED as i128;
    assert!(s <= c * c);
    assert!(s > (c - 3) * (c - 3));
}

#[test]
fn throw_power_cap_at_and_beyond_200_pixels() {
    let c = THROW_MAX_SPEED as i128;
    for (dx, dy) in [(200 * U, 0), (0, -200 * U), (1000 * U, 700 * U), (-123_456, 987_654)] {
        let v = throw_velocity_of(dx, dy);
        let s = speed_squared(&v);
        assert!(s <= c * c, "{dx} {dy}");
        assert!(s > (c - 3) * (c - 3), "{dx} {dy}");
    }
    assert_eq!(throw_velocity_of(200 * U, 0), Velocity::new(20 * U, 0));
    assert_eq!(throw_velocity_of(0, -500 * U), Velocity::new(0, -20 * U));
}

#[test]
fn throw_below_200_pixels_scales_with_distance() {
    assert_eq!(throw_velocity_of(100 * U, 0), Velocity::new(10 * U, 0));
    assert_eq!(throw_velocity_of(60 * U, -80 * U), Velocity::new(6 * U, -8 * U));
    assert_eq!(throw_velocity_of(-15, 27), Velocity::new(-1, 2));
    assert_eq!(throw_velocity_of(199_999, 0), Velocity::new(19_999, 0));
    assert_eq!(throw_velocity_of(0, 0), Velocity::new(0, 0));
}

#[test]
fn ceil_sqrt_rounds_up() {
    assert_eq!(ceil_sqrt_of(0), 0);
    assert_eq!(ceil_sqrt_of(1), 1);
    assert_eq!(ceil_sqrt_of(2), 2);
    assert_eq!(ceil_sqrt_of(16), 4);
    assert_eq!(ceil_sqrt_of(17), 5);
    assert_eq!(ceil_sqrt_of(90_000_196_864), 300_001);
}

#[test]
fn clicking_carried_weapon_throws_it() {
    let config = PlayerConfig::standard();
    let weapon_config = WeaponConfig::standard(&config);
    let mut player = standard_player();
    let mut w = standard_weapon(140 * U, 60 * U);
    let mut mouse = click(140 * U + 30 * U, 60 * U + 40 * U);
    assert!(player.can_apply_clicks(&w, &mouse, &config, &weapon_config));
    player.apply_clicks(&mut w, &mut mouse, &config, &weapon_config);
    assert_eq!(w.state, WeaponState::Thrown);
    assert_eq!(w.velocity, Velocity::new(3 * U, 4 * U));
    assert_eq!(player.collision_box.width, 100 * U);
    assert!(!mouse.right.pressed);
}

#[test]
fn click_is_ignored_while_weapon_flies() {
    let config = PlayerConfig::standard();
    let weapon_config = WeaponConfig::standard(&config);
    let mut player = standard_player();
    let mut w = standard_weapon(500 * U, 60 * U);
    w.state = WeaponState::Thrown;
    w.velocity = Velocity::new(7, 8);
    let mut mouse = click(0, 0);
    player.apply_clicks(&mut w, &mut mouse, &config, &weapon_config);
    assert_eq!(w.state, WeaponState::Thrown);
    assert_eq!(w.velocity, Velocity::new(7, 8));
    assert_eq!(player.position, Position::new(40 * U, 20 * U));
    assert!(!mouse.right.pressed);
}

#[test]
fn no_pending_click_changes_nothing() {
    let config = PlayerConfig::standard();
    let weapon_config = WeaponConfig::standard(&config);
    let mut player = standard_player();
    let mut w = standard_weapon(500 * U, 60 * U);
    let mut mouse = Mouse::new();
    mouse.right.x = 7;
    player.apply_clicks(&mut w, &mut mouse, &config, &weapon_config);
    assert_eq!(w.state, WeaponState::Carried);
    assert_eq!(w.velocity, Velocity::new(0, 0));
    assert_eq!(mouse.right.x, 7);
}

#[test]
fn picking_up_weapon_stuck_left_teleports_player() {
    let config = PlayerConfig::standard();
    let weapon_config = WeaponConfig::standard(&config);
    let mut player = standard_player();
    player.collision_box.set_width(100 * U);
    let mut w = standard_weapon(600 * U, 250 * U);
    w.state = WeaponState::Stuck(StuckOn::Left);
    let mut mouse = click(10, 10);
    player.apply_clicks(&mut w, &mut mouse, &config, &weapon_config);
    assert_eq!(player.position.x, w.position.x);
    assert_eq!(player.position.y, w.position.y + w.height - player.height);
    assert_eq!(w.state, WeaponState::Carried);
    assert_eq!(player.collision_box.width, 130 * U);
    assert!(!mouse.right.pressed);
}

#[test]
fn picking_up_weapon_stuck_on_other_sides() {
    let config = PlayerConfig::standard();
    let weapon_config = WeaponConfig::standard(&config);
    for (stuck, x, y) in [
        (StuckOn::Right, 500 * U, 150 * U),
        (StuckOn::Top, 500 * U, 250 * U),
        (StuckOn::Bottom, 500 * U, 150 * U),
    ] {
        let mut player = standard_player();
        player.collision_box.set_width(100 * U);
        let mut w = standard_weapon(600 * U, 250 * U);
        w.state = WeaponState::Stuck(stuck);
        let mut mouse = click(0, 0);
        player.apply_clicks(&mut w, &mut mouse, &config, &weapon_config);
        assert_eq!(player.position, Position::new(x, y));
        assert_eq!(w.state, WeaponState::Carried);
    }
}

#[test]
fn weapon_ground_clamp_sticks_on_floor() {
    let canvas = Canvas::standard();
    let mut w = standard_weapon(10 * U, 470 * U);
    w.state = WeaponState::Thrown;
    w.velocity = Velocity::new(2 * U, 4 * U);
    assert!(w.can_apply_physics(&canvas));
    w.apply_physics(&canvas);
    assert_eq!(w.velocity, Velocity::new(2 * U, 0));
    assert_eq!(w.position, Position::new(12 * U, 576 * U - 100 * U));
    assert_eq!(w.state, WeaponState::Stuck(StuckOn::Bottom));
    assert_eq!(w.previous_position, Position::new(10 * U, 470 * U));
}

#[test]
fn thrown_weapon_falls_and_spins() {
    let canvas = Canvas::standard();
    let mut w = standard_weapon(10 * U, 10 * U);
    w.state = WeaponState::Thrown;
    w.velocity = Velocity::new(2 * U, -4 * U);
    w.apply_physics(&canvas);
    w.apply_physics(&canvas);
    assert_eq!(w.position, Position::new(14 * U, 2 * U + U / 2));
    assert_eq!(w.velocity, Velocity::new(2 * U, -3 * U));
    assert_eq!(w.angle, 2 * ANGULAR_VELOCITY);
    assert_eq!(w.state, WeaponState::Thrown);
}

#[test]
fn weapon_sticks_by_facing_side() {
    let platforms = vec![Platform::new(100, 100, 50, 50, None, "grey".to_string())];
    let cases = [
        ((80, 120), (95, 120), StuckOn::Right, Position::new(90, 120)),
        ((150, 120), (145, 120), StuckOn::Left, Position::new(150, 120)),
        ((120, 90), (120, 95), StuckOn::Bottom, Position::new(120, 90)),
        ((120, 150), (120, 145), StuckOn::Top, Position::new(120, 150)),
    ];
    for (prev, now, stuck, snapped) in cases {
        let mut w = Weapon::new(now.0, now.1, 10, 10, None, "red".to_string());
        w.previous_position = Position::new(prev.0, prev.1);
        w.state = WeaponState::Thrown;
        w.velocity = Velocity::new(3, 3);
        w.resolve_collisions(&platforms);
        assert_eq!(w.state, WeaponState::Stuck(stuck));
        assert_eq!(w.position, snapped);
    }
}

#[test]
fn carried_weapon_follows_player() {
    let config = PlayerConfig::standard();
    let weapon_config = WeaponConfig::standard(&config);
    let player = standard_player();
    let mut w = standard_weapon(0, 0);
    w.follow_player(&player, &weapon_config);
    assert_eq!(w.position, Position::new(140 * U, 60 * U));
}

#[test]
fn weapon_draw_turns_only_when_not_flying() {
    let mut w = standard_weapon(5, 6);
    w.angle = 1234;
    let c = w.draw();
    assert_eq!((c.x, c.y, c.width, c.height, c.rotation), (5, 6, 30 * U, 100 * U, 1234));
    assert_eq!(c.color, "red");
    w.state = WeaponState::Thrown;
    assert_eq!(w.draw().rotation, 0);
    let p = draw(&Platform::new(1, 2, 3, 4, None, "orange".to_string()));
    assert_eq!((p.x, p.y, p.width, p.height, p.rotation), (1, 2, 3, 4, 0));
    assert_eq!(p.color, "orange");
}

#[test]
fn standard_configuration() {
    let canvas = Canvas::standard();
    assert_eq!((canvas.width(), canvas.height(), canvas.gravity()), (1024 * U, 576 * U, U / 2));
    let config = PlayerConfig::standard();
    assert_eq!((config.sprite().width(), config.sprite().height()), (100 * U, 200 * U));
    assert_eq!((config.velocity().x(), config.velocity().jump()), (5 * U, -10 * U));
    let weapon = WeaponConfig::standard(&config);
    let s = weapon.sprite();
    assert_eq!((s.width(), s.height(), s.x_offset(), s.y_offset()), (30 * U, 100 * U, 100 * U, 40 * U));
    let w = standard_weapon(1, 2);
    assert_eq!(w.state(), &WeaponState::Carried);
    assert_eq!(w.angular_velocity, ANGULAR_VELOCITY);
}

#[test]
fn weapon_update_depends_on_state() {
    let config = PlayerConfig::standard();
    let weapon_config = WeaponConfig::standard(&config);
    let canvas = Canvas::standard();
    let platforms = vec![Platform::new(500 * U, 500 * U, 300 * U, 150 * U, None, "orange".to_string())];
    let player = standard_player();

    let mut carried = standard_weapon(0, 0);
    assert!(carried.can_update(&player, &platforms, &canvas, &weapon_config));
    carried.update(&player, &platforms, &canvas, &weapon_config);
    assert_eq!(carried.position, Position::new(140 * U, 60 * U));

    let mut stuck = standard_weapon(7, 8);
    stuck.state = WeaponState::Stuck(StuckOn::Top);
    stuck.velocity = Velocity::new(1, 1);
    stuck.update(&player, &platforms, &canvas, &weapon_config);
    assert_eq!(stuck.position, Position::new(7, 8));

    // Thrown down onto the platform's top: it flies one step, then sticks.
    let mut thrown = standard_weapon(600 * U, 395 * U);
    thrown.state = WeaponState::Thrown;
    thrown.velocity = Velocity::new(0, 10 * U);
    thrown.update(&player, &platforms, &canvas, &weapon_config);
    assert_eq!(thrown.state, WeaponState::Stuck(StuckOn::Bottom));
    assert_eq!(thrown.position, Position::new(600 * U, 400 * U));
    assert_eq!(thrown.velocity, Velocity::new(0, 0));
}
