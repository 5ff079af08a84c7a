//! Ground detection: the player counts as grounded while its height stays the
//! same from one tick to the next.

use vstd::prelude::*;
use crate::player::{Grounded, Player};
use crate::units::Position;

verus! {

/// What ground detection remembers between ticks: where the player was when it
/// last looked.
#[derive(Clone, Copy, Debug, PartialEq, Eq, Structural)]
pub struct GroundDetection {
    pub last: Position,
}

impl GroundDetection {
    /// Ground detection that remembers `last` as the place of the player.
    pub fn new(last: Position) -> (memory: GroundDetection)
        ensures
            memory.last == last,
    {
        GroundDetection { last }
    }
}

impl Player {
    /// The player with its grounded flag set as ground detection sets it when
    /// it remembers `last`: true exactly where the height is the same.
    pub open spec fn judged(self, last: Position) -> Player {
        Player { grounded: Grounded(self.position.y == last.y), ..self }
    }
}

/// The ground detection system. The player is grounded exactly when it is as
/// high as it was at the last look, whatever holds it there; nothing else of
/// the player changes. The place of the player is then remembered for the next
/// look, whether the flag changed or not.
pub fn ground_detection(player: &mut Player, memory: &mut GroundDetection)
    ensures
        *final(player) == old(player).judged(old(memory).last),
        final(player).grounded.0 <==> old(player).position.y == old(memory).last.y,
        final(memory).last == old(player).position,
{
    let current = player.position.y == memory.last.y;
    if current != player.grounded.0 {
        player.grounded.0 = current;
    }
    memory.last = player.position;
}

} // verus!
