//! From pressed keys to the direction in which the player moves.

use vstd::prelude::*;

verus! {

/// Speed of the player in world units per second.
pub const SPEED: u32 = 100;

/// The four movement keys, each pressed or not.
#[derive(Clone, Copy, Debug, PartialEq, Eq)]
pub struct MovementKeys {
    pub up: bool,
    pub down: bool,
    pub right: bool,
    pub left: bool,
}

/// A direction with components of -1, 0 or 1.
#[derive(Clone, Copy, Debug, PartialEq, Eq)]
pub struct Direction {
    pub x: i8,
    pub y: i8,
}

/// What a sweep of the player's collider along its movement ran into.
#[derive(Clone, Copy, Debug, PartialEq, Eq)]
pub struct Blocked {
    /// Something is in the way of the whole movement.
    pub diagonal: bool,
    /// Something is in the way of its horizontal part.
    pub horizontal: bool,
    /// Something is in the way of its vertical part.
    pub vertical: bool,
}

/// The parts of a movement that go through.
#[derive(Clone, Copy, Debug, PartialEq, Eq)]
pub struct KeptAxes {
    pub x: bool,
    pub y: bool,
}

/// One component of the direction: the key of the positive side wins over
/// the key of the negative side.
pub open spec fn axis_of(positive: bool, negative: bool) -> i8 {
    if positive {
        1i8
    } else if negative {
        -1i8
    } else {
        0i8
    }
}

/// The direction that the keys ask for.
pub open spec fn direction_of(keys: MovementKeys) -> Direction {
    Direction { x: axis_of(keys.right, keys.left), y: axis_of(keys.up, keys.down) }
}

/// The parts of a movement that go through: none where the whole movement
/// is blocked, else each part that is not blocked itself.
pub open spec fn kept_axes_of(blocked: Blocked) -> KeptAxes {
    KeptAxes {
        x: !blocked.diagonal && !blocked.horizontal,
        y: !blocked.diagonal && !blocked.vertical,
    }
}

/// One component of the direction.
pub fn axis(positive: bool, negative: bool) -> (value: i8)
    ensures
        value == axis_of(positive, negative),
{
    if positive {
        1
    } else if negative {
        -1
    } else {
        0
    }
}

/// The direction that the keys ask for.
pub fn direction(keys: MovementKeys) -> (direction: Direction)
    ensures
        direction == direction_of(keys),
{
    Direction { x: axis(keys.right, keys.left), y: axis(keys.up, keys.down) }
}

/// Whether a direction moves the player at all.
pub fn is_moving(direction: Direction) -> (moving: bool)
    ensures
        moving == (direction.x != 0 || direction.y != 0),
{
    direction.x != 0 || direction.y != 0
}

/// The parts of a movement that go through.
pub fn kept_axes(blocked: Blocked) -> (kept: KeptAxes)
    ensures
        kept == kept_axes_of(blocked),
{
    KeptAxes {
        x: !blocked.diagonal && !blocked.horizontal,
        y: !blocked.diagonal && !blocked.vertical,
    }
}

/// Each component of the direction is -1, 0 or 1, and it is 0 exactly when
/// neither key of its axis is pressed.
pub proof fn lemma_direction_components(keys: MovementKeys)
    ensures
        -1 <= direction_of(keys).x <= 1,
        -1 <= direction_of(keys).y <= 1,
        direction_of(keys).x == 0 <==> !keys.right && !keys.left,
        direction_of(keys).y == 0 <==> !keys.up && !keys.down,
{
}

} // verus!
