//! Keyboard-driven movement for a real-time entity-component engine.
//!
//! Once per frame the host engine samples the keyboard into a [`KeyState`],
//! [`direction_from_keys`] folds that sample into the [`Direction`] flag
//! record, and [`Direction::velocity`] maps the flags to an axis-aligned
//! integer direction vector. Scaling that vector by speed and frame time and
//! rotating it into each controlled entity's local basis is floating-point
//! work that stays with the engine-facing shell, as do the scheduler
//! registration and the debug-marker drawing.

use vstd::prelude::*;

verus! {

/// Registers the keyboard-control systems with the host engine.
///
/// The registration itself talks to the engine's scheduler, so it lives in
/// the engine-facing shell; this is the marker the rest of the crate names.
pub struct KeyboardControllerPlugin;

/// Any entity with this attached gets its transform controlled by the keyboard.
pub struct KeyboardController;

/// One frame's keyboard sample: whether each key the controller listens to
/// is currently held down.
#[derive(Clone, Copy, Debug, PartialEq, Eq, Structural)]
pub struct KeyState {
    pub w: bool,
    pub up_arrow: bool,
    pub s: bool,
    pub down_arrow: bool,
    pub a: bool,
    pub left_arrow: bool,
    pub d: bool,
    pub right_arrow: bool,
    pub space: bool,
    pub shift_left: bool,
}

/// Direction of movement. Controlled by keyboard.
#[derive(Clone, Debug, PartialEq, Eq, Structural)]
pub struct Direction {
    pub forward: bool,
    pub back: bool,
    pub left: bool,
    pub right: bool,
    pub up: bool,
    pub down: bool,
}

/// An axis-aligned direction vector with integer components, each in
/// `-1 ..= 1`: the sum of the unit axis vectors of the active directions,
/// in the engine's right-handed basis (+X right, +Y up, +Z back).
#[derive(Clone, Copy, Debug, PartialEq, Eq, Structural)]
pub struct Vec3i {
    pub x: i32,
    pub y: i32,
    pub z: i32,
}

/// The signed contribution of one axis: `1` for the positive direction,
/// `-1` for the negative one, `0` when both or neither is active.
pub open spec fn axis(pos: bool, neg: bool) -> int {
    (if pos { 1int } else { 0int }) - (if neg { 1int } else { 0int })
}

/// The flag record a keyboard sample maps to: an alias pair (letter key or
/// arrow key) drives each horizontal direction, space drives up and left
/// shift drives down.
pub open spec fn direction_of_keys(keys: KeyState) -> Direction {
    Direction {
        forward: keys.w || keys.up_arrow,
        back: keys.s || keys.down_arrow,
        left: keys.a || keys.left_arrow,
        right: keys.d || keys.right_arrow,
        up: keys.space,
        down: keys.shift_left,
    }
}

impl Direction {
    /// No direction is active.
    pub open spec fn is_clear(&self) -> bool {
        !self.forward && !self.back && !self.left && !self.right && !self.up
            && !self.down
    }

    /// Deactivates every direction.
    pub fn clear(&mut self)
        ensures
            final(self).is_clear(),
    {
        self.forward = false;
        self.back = false;
        self.left = false;
        self.right = false;
        self.up = false;
        self.down = false;
    }

    /// The direction vector the active flags sum to: each active direction
    /// contributes its unit axis vector (forward is `-Z`, right is `+X`,
    /// up is `+Y`), and opposite directions cancel. The zero vector when
    /// no flag is set.
    pub fn velocity(&self) -> (v: Vec3i)
        ensures
            v.x == axis(self.right, self.left),
            v.y == axis(self.up, self.down),
            v.z == axis(self.back, self.forward),
            self.is_clear() ==> v == (Vec3i { x: 0, y: 0, z: 0 }),
    {
        Vec3i {
            x: axis_value(self.right, self.left),
            y: axis_value(self.up, self.down),
            z: axis_value(self.back, self.forward),
        }
    }
}

impl Default for Direction {
    /// The clear record: no direction active.
    fn default() -> (d: Self)
        ensures
            d.is_clear(),
    {
        Direction {
            forward: false,
            back: false,
            left: false,
            right: false,
            up: false,
            down: false,
        }
    }
}

/// One component of the direction sum, as `velocity` assembles it.
fn axis_value(pos: bool, neg: bool) -> (r: i32)
    ensures
        r == axis(pos, neg),
{
    let p: i32 = if pos { 1 } else { 0 };
    let n: i32 = if neg { 1 } else { 0 };
    p - n
}

/// Rebuilds the flag record from this frame's keyboard sample: every flag is
/// first cleared, then set exactly when one of its keys is held, so the
/// record never outlives the keys that produced it.
pub fn direction_from_keys(direction: &mut Direction, keys: &KeyState)
    ensures
        *final(direction) == direction_of_keys(*keys),
{
    direction.clear();
    if keys.w || keys.up_arrow {
        direction.forward = true;
    }
    if keys.s || keys.down_arrow {
        direction.back = true;
    }
    if keys.a || keys.left_arrow {
        direction.left = true;
    }
    if keys.d || keys.right_arrow {
        direction.right = true;
    }
    if keys.space {
        direction.up = true;
    }
    if keys.shift_left {
        direction.down = true;
    }
}

} // verus!
