//! Axis-aligned boxes and the test that tells whether two of them overlap.

use vstd::prelude::*;
use crate::units::Position;

verus! {

/// A rectangle of the given width and height, centred on the position of the
/// entity that owns it. Both extents are in length units.
#[derive(Clone, Copy, Debug, PartialEq, Eq, Structural)]
pub struct HitBox {
    pub width: u64,
    pub height: u64,
}

impl HitBox {
    /// Twice the coordinate of the left edge of the box centred on `at`.
    /// Edges are doubled so that half an extent stays a whole number.
    pub open spec fn left(self, at: Position) -> int {
        2 * at.x - self.width
    }

    /// Twice the coordinate of the right edge of the box centred on `at`.
    pub open spec fn right(self, at: Position) -> int {
        2 * at.x + self.width
    }

    /// Twice the coordinate of the lower edge of the box centred on `at`.
    pub open spec fn bottom(self, at: Position) -> int {
        2 * at.y - self.height
    }

    /// Twice the coordinate of the upper edge of the box centred on `at`.
    pub open spec fn top(self, at: Position) -> int {
        2 * at.y + self.height
    }
}

/// Two boxes overlap when, on each axis, each one begins strictly before the
/// other one ends. Boxes that only touch do not overlap.
pub open spec fn overlaps(a: HitBox, a_at: Position, b: HitBox, b_at: Position) -> bool {
    &&& a.right(a_at) > b.left(b_at)
    &&& a.left(a_at) < b.right(b_at)
    &&& a.top(a_at) > b.bottom(b_at)
    &&& a.bottom(a_at) < b.top(b_at)
}

/// The distance between `a` and `b`.
pub open spec fn distance(a: int, b: int) -> int {
    if a <= b {
        b - a
    } else {
        a - b
    }
}

/// Tells whether the box `hitbox` centred on `offset` overlaps the box
/// `other_hitbox` centred on `other_offset`.
pub fn check_hit(hitbox: HitBox, offset: Position, other_hitbox: HitBox, other_offset: Position) -> (hit: bool)
    ensures
        hit == overlaps(hitbox, offset, other_hitbox, other_offset),
{
    let x: i128 = 2 * (offset.x as i128);
    let y: i128 = 2 * (offset.y as i128);
    let w: i128 = hitbox.width as i128;
    let h: i128 = hitbox.height as i128;
    let ox: i128 = 2 * (other_offset.x as i128);
    let oy: i128 = 2 * (other_offset.y as i128);
    let ow: i128 = other_hitbox.width as i128;
    let oh: i128 = other_hitbox.height as i128;
    x + w > ox - ow && x - w < ox + ow && y + h > oy - oh && y - h < oy + oh
}

/// Two boxes overlap exactly when their centres are closer than half the sum
/// of the widths horizontally and closer than half the sum of the heights
/// vertically. At exactly that distance on either axis they do not overlap.
pub proof fn lemma_overlap_by_distance(a: HitBox, a_at: Position, b: HitBox, b_at: Position)
    ensures
        overlaps(a, a_at, b, b_at) <==> {
            &&& 2 * distance(a_at.x as int, b_at.x as int) < a.width + b.width
            &&& 2 * distance(a_at.y as int, b_at.y as int) < a.height + b.height
        },
{
}

/// Which of the two boxes is named first makes no difference.
pub proof fn lemma_overlap_symmetric(a: HitBox, a_at: Position, b: HitBox, b_at: Position)
    ensures
        overlaps(a, a_at, b, b_at) == overlaps(b, b_at, a, a_at),
{
}

} // verus!
