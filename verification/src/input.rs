//! The per-frame mapping from held direction keys to a horizontal velocity.

use vstd::prelude::*;

verus! {

/// The live pressed state of the recognized direction keys: the move-left
/// action is held while A or the left arrow is down, the move-right action
/// while D or the right arrow is down.
#[derive(Clone, Copy, Debug, PartialEq, Eq)]
pub struct Keys {
    pub key_a: bool,
    pub left_arrow: bool,
    pub key_d: bool,
    pub right_arrow: bool,
}

/// Whether any key of the move-left set is held.
pub open spec fn left_held(k: Keys) -> bool {
    k.key_a || k.left_arrow
}

/// Whether any key of the move-right set is held.
pub open spec fn right_held(k: Keys) -> bool {
    k.key_d || k.right_arrow
}

/// Reduces the pressed key state to the two logical actions, left then
/// right: an action is held while any key of its set is.
pub fn held_actions(k: &Keys) -> (lr: (bool, bool))
    ensures
        lr.0 == left_held(*k),
        lr.1 == right_held(*k),
{
    (k.key_a || k.left_arrow, k.key_d || k.right_arrow)
}

/// The net directional axis that a pair of held keys yields: -1 when only a
/// left key is held, 1 when only a right key is held, and 0 when neither or
/// both are held (simultaneous opposite keys cancel out by design).
pub open spec fn axis_spec(left: bool, right: bool) -> int {
    (if left { -1int } else { 0int }) + (if right { 1int } else { 0int })
}

/// Maps the held state of the left and right key sets to the signed axis.
pub fn axis(left: bool, right: bool) -> (a: i8)
    ensures
        a as int == axis_spec(left, right),
        a == -1i8 <==> (left && !right),
        a == 1i8 <==> (!left && right),
        a == 0i8 <==> (left == right),
{
    let l: i8 = if left { 1 } else { 0 };
    let r: i8 = if right { 1 } else { 0 };
    -l + r
}

/// The horizontal velocity commanded for a body of the given speed: the
/// axis scaled by the speed.
pub open spec fn velocity_x_spec(left: bool, right: bool, speed: int) -> int {
    axis_spec(left, right) * speed
}

/// Computes the commanded horizontal velocity. The result overwrites the
/// previous velocity; it never accumulates. Whatever the speed, a cancelled
/// or idle axis commands a velocity of zero.
pub fn velocity_x(left: bool, right: bool, speed: i64) -> (v: i64)
    requires
        i64::MIN < speed,
    ensures
        v as int == velocity_x_spec(left, right, speed as int),
        left == right ==> v == 0i64,
{
    let a = axis(left, right);
    if a < 0 {
        -speed
    } else if a > 0 {
        speed
    } else {
        0
    }
}

} // verus!
