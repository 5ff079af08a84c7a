//! The scales of length and time, the speeds, and positions.

use vstd::prelude::*;

verus! {

/// Length units in one world unit.
pub const UNIT: i64 = 1_000_000;

/// Microseconds in one second.
pub const SECOND: u64 = 1_000_000;

/// Horizontal speed of the player, in world units per second.
pub const MOVE_SPEED: i64 = 100;

/// Speed at which the player falls, in world units per second. The player
/// rises at twice this speed.
pub const FALL_SPEED: i64 = 98;

/// Energy that a jump starts with, in length units.
pub const JUMP_ENERGY: i64 = 100 * UNIT;

/// A point of the plane, in length units. `y` grows upwards.
#[derive(Clone, Copy, Debug, PartialEq, Eq, Structural)]
pub struct Position {
    pub x: i64,
    pub y: i64,
}

/// Whether `v` can be stored in a coordinate.
pub open spec fn fits(v: int) -> bool {
    i64::MIN <= v <= i64::MAX
}

impl Position {
    /// The position `dx` to the right of and `dy` above `self`. Meaningful
    /// where both coordinates of the result fit.
    pub open spec fn shifted(self, dx: int, dy: int) -> Position
        recommends
            fits(self.x + dx),
            fits(self.y + dy),
    {
        Position { x: (self.x + dx) as i64, y: (self.y + dy) as i64 }
    }

    /// The point from which all coordinates are measured.
    pub fn origin() -> (p: Position)
        ensures
            p == (Position { x: 0, y: 0 }),
    {
        Position { x: 0, y: 0 }
    }
}

} // verus!
