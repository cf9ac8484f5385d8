//! The heading state machine: four directions of travel and the legality rule
//! for key presses (no in-place reversal).

use vstd::prelude::*;

verus! {

/// A heading on the grid.
#[derive(Clone, Copy, PartialEq, Eq, Structural, Debug)]
pub enum SnakeDirection {
    Right,
    Left,
    Up,
    Down,
}

/// A key press as the core sees it: one of the four directional keys, or any
/// other key, which the core ignores.
#[derive(Clone, Copy, PartialEq, Eq, Structural, Debug)]
pub enum InputKey {
    Up,
    Down,
    Right,
    Left,
    Other,
}

/// The heading that is the exact opposite of `d`.
pub open spec fn opposite(d: SnakeDirection) -> SnakeDirection {
    match d {
        SnakeDirection::Right => SnakeDirection::Left,
        SnakeDirection::Left => SnakeDirection::Right,
        SnakeDirection::Up => SnakeDirection::Down,
        SnakeDirection::Down => SnakeDirection::Up,
    }
}

/// The heading a key press requests, if it is a directional key.
pub open spec fn requested_heading(key: InputKey) -> Option<SnakeDirection> {
    match key {
        InputKey::Up => Some(SnakeDirection::Up),
        InputKey::Down => Some(SnakeDirection::Down),
        InputKey::Right => Some(SnakeDirection::Right),
        InputKey::Left => Some(SnakeDirection::Left),
        InputKey::Other => None,
    }
}

/// The heading after a key press: the requested heading, unless the key is not
/// directional or the requested heading is the exact opposite of the current
/// one (which would reverse the head into the neck); then the current heading
/// stands unchanged.
pub open spec fn spec_apply_key(current: SnakeDirection, key: InputKey) -> SnakeDirection {
    match requested_heading(key) {
        Some(d) => if d == opposite(current) {
            current
        } else {
            d
        },
        None => current,
    }
}

/// No in-place reversal: whatever key is pressed, the heading after the press
/// is never the exact opposite of the heading before it, so the head can
/// never reverse into the neck on the next tick.
pub proof fn lemma_no_reversal(current: SnakeDirection, key: InputKey)
    ensures
        spec_apply_key(current, key) != opposite(current),
{
}

/// Update the heading for one key press; illegal or unrecognized presses are
/// silently ignored.
pub fn apply_key(current: SnakeDirection, key: InputKey) -> (r: SnakeDirection)
    ensures
        r == spec_apply_key(current, key),
{
    match key {
        InputKey::Up => if current == SnakeDirection::Down {
            current
        } else {
            SnakeDirection::Up
        },
        InputKey::Down => if current == SnakeDirection::Up {
            current
        } else {
            SnakeDirection::Down
        },
        InputKey::Right => if current == SnakeDirection::Left {
            current
        } else {
            SnakeDirection::Right
        },
        InputKey::Left => if current == SnakeDirection::Right {
            current
        } else {
            SnakeDirection::Left
        },
        InputKey::Other => current,
    }
}

/// The change a heading applies to the x coordinate in one tick.
pub open spec fn dir_dx(d: SnakeDirection) -> int {
    match d {
        SnakeDirection::Right => 1,
        SnakeDirection::Left => -1,
        SnakeDirection::Up => 0,
        SnakeDirection::Down => 0,
    }
}

/// The change a heading applies to the y coordinate in one tick.
pub open spec fn dir_dy(d: SnakeDirection) -> int {
    match d {
        SnakeDirection::Right => 0,
        SnakeDirection::Left => 0,
        SnakeDirection::Up => -1,
        SnakeDirection::Down => 1,
    }
}

} // verus!
