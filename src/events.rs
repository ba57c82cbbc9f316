use vstd::prelude::*;
use vstd::string::StrSliceExecFns;
use crate::constants::controls::{KeyState, Keys, Mouse, MouseState};

verus! {

/// The lower-case form of a key name, as `str::to_lowercase` gives it.
pub uninterp spec fn lower_of(s: Seq<char>) -> Seq<char>;

/// Relies on `str::to_lowercase`: its result depends on the characters of
/// its argument alone.
#[verifier::external_body]
fn lowercase(s: &str) -> (r: String)
    ensures
        r@ == lower_of(s@),
{
    s.to_lowercase()
}

/// The held keys after the key named `key` (already in lower case) goes
/// down (`pressed`) or up: `a`, `d`, and `w` or the space bar for the jump;
/// any other key changes nothing.
pub open spec fn keys_after(keys: Keys, key: Seq<char>, pressed: bool) -> Keys {
    if key == seq!['a'] {
        Keys { a: KeyState { pressed }, ..keys }
    } else if key == seq!['d'] {
        Keys { d: KeyState { pressed }, ..keys }
    } else if key == seq!['w'] || key == seq![' '] {
        Keys { w: KeyState { pressed }, ..keys }
    } else {
        keys
    }
}

/// Records that the key named `key`, already in lower case, went down
/// (`pressed`) or up.
pub fn set_key(keys: &mut Keys, key: &str, pressed: bool)
    ensures
        *final(keys) == keys_after(*old(keys), key@, pressed),
{
    if key.unicode_len() != 1 {
        proof {
            assert(key@ != seq!['a'] && key@ != seq!['d'] && key@ != seq!['w'] && key@ != seq![' ']);
        }
        return;
    }
    let c = key.get_char(0);
    proof {
        assert(key@ =~= seq![c]);
    }
    if c == 'a' {
        keys.a.pressed = pressed;
    } else if c == 'd' {
        keys.d.pressed = pressed;
    } else if c == 'w' || c == ' ' {
        keys.w.pressed = pressed;
    }
}

/// A key went down; its name is matched without regard to case.
pub fn key_down(keys: &mut Keys, key: &str)
    ensures
        *final(keys) == keys_after(*old(keys), lower_of(key@), true),
{
    let lower = lowercase(key);
    set_key(keys, lower.as_str(), true);
}

/// A key went up; its name is matched without regard to case.
pub fn key_up(keys: &mut Keys, key: &str)
    ensures
        *final(keys) == keys_after(*old(keys), lower_of(key@), false),
{
    let lower = lowercase(key);
    set_key(keys, lower.as_str(), false);
}

/// A mouse button went down on the canvas: a click of the main button
/// (`0`) is recorded, any other is ignored.
pub fn left_click(mouse: &mut Mouse, button: i16)
    ensures
        *final(mouse) == if button == 0 {
            Mouse { left: MouseState { pressed: true, ..old(mouse).left }, ..*old(mouse) }
        } else {
            *old(mouse)
        },
{
    if button != 0 {
        return;
    }
    mouse.left.pressed = true;
}

/// A context-menu click at `(x, y)`: a click of the secondary button (`2`)
/// is recorded with its place, and the result says whether the browser's
/// menu is to be suppressed; any other button is ignored.
pub fn right_click(mouse: &mut Mouse, button: i16, x: i64, y: i64) -> (handled: bool)
    ensures
        handled == (button == 2),
        *final(mouse) == if button == 2 {
            Mouse { right: MouseState { pressed: true, x, y }, ..*old(mouse) }
        } else {
            *old(mouse)
        },
{
    if button != 2 {
        return false;
    }
    mouse.right.pressed = true;
    mouse.right.x = x;
    mouse.right.y = y;
    true
}

} // verus!
