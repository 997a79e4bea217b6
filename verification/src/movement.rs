//! Keyboard control: which way the held keys push.

use vstd::prelude::*;

verus! {

/// The movement keys, `true` while held.
#[derive(Clone, Copy, Debug, PartialEq, Eq, Structural)]
pub struct MoveKeys {
    pub w: bool,
    pub s: bool,
    pub a: bool,
    pub d: bool,
    pub space: bool,
    pub l_shift: bool,
}

/// A push along the three axes of the mover's own frame, each in whole steps
/// of the movement speed: `x` to the right, `y` up, `z` backwards.
#[derive(Clone, Copy, Debug, PartialEq, Eq, Structural)]
pub struct MoveSteps {
    pub x: i8,
    pub y: i8,
    pub z: i8,
}

/// What two opposed keys ask for along their axis: one step on for the key
/// that pushes forward, one step back for its opposite, nothing when both or
/// neither are held.
pub open spec fn axis_steps(forward: bool, backward: bool) -> int {
    (if forward { 1int } else { 0int }) - (if backward { 1int } else { 0int })
}

/// Computes `axis_steps`.
fn axis(forward: bool, backward: bool) -> (steps: i8)
    ensures
        steps == axis_steps(forward, backward),
{
    let mut steps: i8 = 0;
    if backward {
        steps = steps - 1;
    }
    if forward {
        steps = steps + 1;
    }
    steps
}

/// The push that the held keys ask for: `D` against `A` along `x`, `Space`
/// against left `Shift` along `y`, and `S` against `W` along `z`.
pub fn move_steps(keys: MoveKeys) -> (steps: MoveSteps)
    ensures
        steps.x == axis_steps(keys.d, keys.a),
        steps.y == axis_steps(keys.space, keys.l_shift),
        steps.z == axis_steps(keys.s, keys.w),
{
    MoveSteps {
        x: axis(keys.d, keys.a),
        y: axis(keys.space, keys.l_shift),
        z: axis(keys.s, keys.w),
    }
}

} // verus!
