//! Which way the keyboard moves the camera, as integer weights of its
//! forward, right and up directions.
use vstd::prelude::*;
use crate::input::InputManager;

verus! {

/// The key codes that move the camera.
#[derive(Clone, Copy, PartialEq, Eq, Structural, Debug)]
pub struct MoveBindings {
    pub forward: u32,
    pub back: u32,
    pub right: u32,
    pub left: u32,
    pub up: u32,
    pub down: u32,
}

/// Weights in {-1, 0, 1} of the camera's forward, right and up directions.
#[derive(Clone, Copy, PartialEq, Eq, Structural, Debug)]
pub struct MoveAxes {
    pub forward: i8,
    pub right: i8,
    pub up: i8,
}

/// +1 when only the positive key is held, -1 when only the negative one is,
/// 0 when both or neither are.
pub open spec fn axis(positive: bool, negative: bool) -> int {
    (if positive { 1int } else { 0int }) - (if negative { 1int } else { 0int })
}

fn axis_of(positive: bool, negative: bool) -> (a: i8)
    ensures
        a == axis(positive, negative),
{
    let mut a: i8 = 0;
    if positive {
        a = a + 1;
    }
    if negative {
        a = a - 1;
    }
    a
}

/// The direction the held keys ask for: forward adds the forward direction
/// and back subtracts it, right and left likewise the right direction, up and
/// down the up direction.
pub fn movement_axes(input: &InputManager, keys: &MoveBindings) -> (m: MoveAxes)
    ensures
        m.forward == axis(input@.held_keys.contains(keys.forward), input@.held_keys.contains(keys.back)),
        m.right == axis(input@.held_keys.contains(keys.right), input@.held_keys.contains(keys.left)),
        m.up == axis(input@.held_keys.contains(keys.up), input@.held_keys.contains(keys.down)),
        m.forward == 1 <==> input@.held_keys.contains(keys.forward) && !input@.held_keys.contains(keys.back),
        m.forward == -1 <==> input@.held_keys.contains(keys.back) && !input@.held_keys.contains(keys.forward),
        m.right == 1 <==> input@.held_keys.contains(keys.right) && !input@.held_keys.contains(keys.left),
        m.right == -1 <==> input@.held_keys.contains(keys.left) && !input@.held_keys.contains(keys.right),
        m.up == 1 <==> input@.held_keys.contains(keys.up) && !input@.held_keys.contains(keys.down),
        m.up == -1 <==> input@.held_keys.contains(keys.down) && !input@.held_keys.contains(keys.up),
        -1 <= m.forward <= 1 && -1 <= m.right <= 1 && -1 <= m.up <= 1,
{
    MoveAxes {
        forward: axis_of(input.is_key_down(keys.forward), input.is_key_down(keys.back)),
        right: axis_of(input.is_key_down(keys.right), input.is_key_down(keys.left)),
        up: axis_of(input.is_key_down(keys.up), input.is_key_down(keys.down)),
    }
}

} // verus!
