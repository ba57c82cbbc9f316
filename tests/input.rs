use hitbox_game::constants::controls::{Keys, Mouse};
use hitbox_game::events::{key_down, key_up, left_click, right_click, set_key};

#[test]
fn keys_go_down_and_up_in_any_case() {
    let mut keys = Keys::new();
    key_down(&mut keys, "D");
    assert!(keys.d.pressed);
    key_down(&mut keys, "a");
    assert!(keys.a.pressed);
    key_down(&mut keys, "W");
    assert!(keys.w.pressed);
    key_up(&mut keys, "d");
    key_up(&mut keys, "A");
    assert!(!keys.d.pressed && !keys.a.pressed && keys.w.pressed);
    key_up(&mut keys, " ");
    assert!(!keys.w.pressed);
    key_down(&mut keys, " ");
    assert!(keys.w.pressed);
}

#[test]
fn other_keys_change_nothing() {
    let mut keys = Keys::new();
    key_down(&mut keys, "Enter");
    key_down(&mut keys, "s");
    key_down(&mut keys, "");
    assert_eq!(keys, Keys::new());
    set_key(&mut keys, "A", true);
    assert_eq!(keys, Keys::new());
}

#[test]
fn only_main_button_registers_left_click() {
    let mut mouse = Mouse::new();
    left_click(&mut mouse, 1);
    assert!(!mouse.left.pressed);
    left_click(&mut mouse, 0);
    assert!(mouse.left.pressed);
}

#[test]
fn only_secondary_button_registers_right_click() {
    let mut mouse = Mouse::new();
    assert!(!right_click(&mut mouse, 0, 5, 6));
    assert_eq!(mouse, Mouse::new());
    assert!(right_click(&mut mouse, 2, 5, 6));
    assert!(mouse.right.pressed);
    assert_eq!((mouse.right.x, mouse.right.y), (5, 6));
}
