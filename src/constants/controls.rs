use vstd::prelude::*;

verus! {

/// Which movement keys are held: `d` runs right, `a` runs left, `w` jumps.
#[derive(Clone, Copy, Debug, PartialEq, Eq, Structural)]
pub struct Keys {
    pub d: KeyState,
    pub a: KeyState,
    pub w: KeyState,
}

#[derive(Clone, Copy, Debug, PartialEq, Eq, Structural)]
pub struct KeyState {
    pub pressed: bool,
}

/// The pending clicks of both mouse buttons.
#[derive(Clone, Copy, Debug, PartialEq, Eq, Structural)]
pub struct Mouse {
    pub left: MouseState,
    pub right: MouseState,
}

/// A button's pending click and where it happened, in fixed-point units.
#[derive(Clone, Copy, Debug, PartialEq, Eq, Structural)]
pub struct MouseState {
    pub pressed: bool,
    pub x: i64,
    pub y: i64,
}

impl Keys {
    /// No key held.
    pub fn new() -> (r: Keys)
        ensures
            !r.d.pressed && !r.a.pressed && !r.w.pressed,
    {
        Keys {
            d: KeyState { pressed: false },
            a: KeyState { pressed: false },
            w: KeyState { pressed: false },
        }
    }
}

impl Mouse {
    /// No click pending, both buttons at the origin.
    pub fn new() -> (r: Mouse)
        ensures
            r == (Mouse {
                left: MouseState { pressed: false, x: 0, y: 0 },
                right: MouseState { pressed: false, x: 0, y: 0 },
            }),
    {
        Mouse {
            left: MouseState { pressed: false, x: 0, y: 0 },
            right: MouseState { pressed: false, x: 0, y: 0 },
        }
    }
}

} // verus!
