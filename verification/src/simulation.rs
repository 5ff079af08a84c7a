//! One tick of the whole game: the systems, each in its turn.

use vstd::prelude::*;
use crate::animation::{animate_sprite, AnimationBundle, FrameTime};
use crate::ground::{ground_detection, GroundDetection};
use crate::input::{Action, Input};
use crate::player::{
    energy_left, jump_power, move_player, player_fall, player_jump, spawn_map, spawn_player,
    Obstacle, Player, Sprite,
};
use crate::registry::{Animation, Animations};
use crate::units::{fits, Position, FALL_SPEED, JUMP_ENERGY, MOVE_SPEED};

verus! {

/// The state of the game between two ticks.
#[derive(Debug, PartialEq, Eq)]
pub struct Simulation {
    pub player: Player,
    pub hitboxs: Vec<Obstacle>,
    pub ground: GroundDetection,
}

impl Player {
    /// The player after `delta` microseconds of its animation.
    pub open spec fn animated(self, delta: u64) -> Player
        recommends
            self.wf(),
    {
        let animation = self.animation.animation;
        let time = self.animation.frame_time.0 + delta;
        Player {
            sprite: Sprite {
                index: animation.frame_after(self.sprite.index, animation.frames(time)) as usize,
                ..self.sprite
            },
            animation: AnimationBundle { animation, frame_time: FrameTime(animation.carried(time) as u64) },
            ..self
        }
    }

    /// The player after the movement, jump and fall systems, in that order.
    /// Each system looks at the player as the one before left it: a jump
    /// rises in the tick that starts it, and a player whose jump has just run
    /// out is tried lower in the same tick.
    pub open spec fn displaced(self, hitboxs: Seq<Obstacle>, input: Input, delta: u64) -> Player {
        self.moved(input, delta).risen(input, delta).fallen(hitboxs, delta)
    }

    /// Whether every coordinate that a tick computes for the player can be
    /// stored: where walking leads, where rising leads if the player rises,
    /// and where falling would lead if it then falls.
    pub open spec fn has_room(self, input: Input, delta: u64) -> bool {
        let moved = self.moved(input, delta);
        let risen = moved.risen(input, delta);
        &&& fits(self.walk(input, delta))
        &&& moved.jump matches Some(jump) ==> fits(moved.position.y + jump_power(jump.0, delta))
        &&& risen.jump is None ==> fits(risen.position.y - FALL_SPEED * delta)
    }

    /// Tells whether the player is well formed.
    pub fn is_wf(&self) -> (ok: bool)
        ensures
            ok == self.wf(),
    {
        let rising = match self.jump {
            Some(jump) => jump.0 > 0,
            None => true,
        };
        rising && self.animation.animation.len > 0 && self.animation.animation.frame_time > 0
            && self.sprite.index < self.animation.animation.len
    }

    /// Tells whether a tick of `delta` microseconds under `input` has room.
    pub fn can_tick(&self, input: &Input, delta: u64) -> (ok: bool)
        requires
            self.wf(),
        ensures
            ok == self.has_room(*input, delta),
    {
        assert(MOVE_SPEED * delta == 100 * delta);
        assert(FALL_SPEED * delta == 98 * delta);
        assert(2 * FALL_SPEED * delta == 196 * delta);
        let low: i128 = i64::MIN as i128;
        let high: i128 = i64::MAX as i128;
        let pressed = input.just_pressed(Action::Jump);
        let step: i128 = (MOVE_SPEED as i128) * (delta as i128);
        let x: i128 = if pressed {
            self.position.x as i128
        } else if input.is_held(Action::MoveLeft) {
            self.position.x as i128 - step
        } else if input.is_held(Action::MoveRight) {
            self.position.x as i128 + step
        } else {
            self.position.x as i128
        };
        if x < low || x > high {
            return false;
        }
        let jump: Option<i64> = match self.jump {
            Some(jump) => Some(jump.0),
            None => if pressed {
                Some(JUMP_ENERGY)
            } else {
                None
            },
        };
        let drop: i128 = (FALL_SPEED as i128) * (delta as i128);
        match jump {
            Some(energy) => {
                let full: i128 = 2 * drop;
                let power: i128 = if full < energy as i128 {
                    full
                } else {
                    energy as i128
                };
                let y: i128 = self.position.y as i128 + power;
                if y > high {
                    return false;
                }
                let rest: i128 = if input.is_held(Action::Jump) {
                    energy as i128 - power
                } else {
                    energy as i128 - 2 * power
                };
                rest > 0 || y - drop >= low
            },
            None => self.position.y as i128 - drop >= low,
        }
    }
}

impl Simulation {
    /// The player is well formed.
    pub open spec fn wf(self) -> bool {
        self.player.wf()
    }

    /// The state after one tick of `delta` microseconds under `input`:
    /// movement, the jump, the fall, ground detection and animation, each
    /// working on what the one before left.
    pub open spec fn ticked(self, input: Input, delta: u64) -> Simulation {
        let displaced = self.player.displaced(self.hitboxs@, input, delta);
        Simulation {
            player: displaced.judged(self.ground.last).animated(delta),
            hitboxs: self.hitboxs,
            ground: GroundDetection { last: displaced.position },
        }
    }

    /// The game as it begins: the map, the player on it, and ground detection
    /// that remembers the origin. The idle animation must be registered.
    pub fn new(animations: &Animations) -> (simulation: Simulation)
        requires
            animations@.contains_key(Animation::PlayerIdle),
        ensures
            simulation.wf(),
            simulation.player.position == (Position { x: 0, y: 0 }),
            simulation.player.jump is None,
            simulation.player.grounded.0,
            simulation.player.sprite == (Sprite { atlas: animations@[Animation::PlayerIdle].0, index: 0 }),
            simulation.player.animation == (AnimationBundle {
                animation: animations@[Animation::PlayerIdle].1,
                frame_time: FrameTime(0),
            }),
            simulation.player.hitbox.width == 18_000_000,
            simulation.player.hitbox.height == 32_000_000,
            simulation.hitboxs@.len() == 1,
            simulation.hitboxs@[0].position == (Position { x: 0, y: -16_000_000i64 }),
            simulation.hitboxs@[0].hitbox.width == 200_000_000,
            simulation.hitboxs@[0].hitbox.height == 5_000_000,
            simulation.ground.last == (Position { x: 0, y: 0 }),
    {
        Simulation {
            player: spawn_player(animations),
            hitboxs: spawn_map(),
            ground: GroundDetection::new(Position::origin()),
        }
    }

    /// Runs one tick of `delta` microseconds under `input`.
    pub fn tick(&mut self, input: &Input, delta: u64)
        requires
            old(self).wf(),
            old(self).player.has_room(*input, delta),
        ensures
            *final(self) == old(self).ticked(*input, delta),
            final(self).wf(),
            final(self).hitboxs == old(self).hitboxs,
            final(self).ground.last == final(self).player.position,
    {
        move_player(&mut self.player, input, delta);
        player_jump(&mut self.player, input, delta);
        player_fall(&mut self.player, &self.hitboxs, delta);
        ground_detection(&mut self.player, &mut self.ground);
        let animation = self.player.animation.animation;
        animate_sprite(&mut self.player.sprite.index, &animation, &mut self.player.animation.frame_time, delta);
    }

    /// Runs one tick of `delta` microseconds under `input` where the state is
    /// well formed and the tick has room, and says so. Otherwise nothing
    /// changes.
    pub fn try_tick(&mut self, input: &Input, delta: u64) -> (done: bool)
        ensures
            done == (old(self).wf() && old(self).player.has_room(*input, delta)),
            done ==> *final(self) == old(self).ticked(*input, delta) && final(self).wf(),
            !done ==> *final(self) == *old(self),
    {
        if self.player.is_wf() && self.player.can_tick(input, delta) {
            self.tick(input, delta);
            true
        } else {
            false
        }
    }
}

/// A tick in which right is held, left is not and no jump starts takes the
/// player exactly `MOVE_SPEED` times `delta` to the right, whether it rises,
/// falls or stays at its height.
pub proof fn lemma_tick_walks_right(simulation: Simulation, input: Input, delta: u64)
    requires
        simulation.player.has_room(input, delta),
        input.is_held(Action::MoveRight),
        !input.is_held(Action::MoveLeft),
        !input.just_pressed(Action::Jump),
    ensures
        simulation.ticked(input, delta).player.position.x == simulation.player.position.x + MOVE_SPEED * delta,
{
}

/// A tick in which the jump action goes down does not move the player
/// horizontally, whatever else is held. For a player without a jump, a jump
/// with full energy starts and rises in that very tick; while it has energy
/// left after that, the player ends the tick `jump_power` higher, with that
/// energy. For a rising player the jump under way goes on with what it has.
pub proof fn lemma_tick_starts_jump(simulation: Simulation, input: Input, delta: u64)
    requires
        simulation.wf(),
        simulation.player.has_room(input, delta),
        input.just_pressed(Action::Jump),
    ensures
        simulation.ticked(input, delta).player.position.x == simulation.player.position.x,
        simulation.player.jump is None && energy_left(JUMP_ENERGY, input.is_held(Action::Jump), delta) > 0
            ==> {
            &&& simulation.ticked(input, delta).player.position.y == simulation.player.position.y
                + jump_power(JUMP_ENERGY, delta)
            &&& simulation.ticked(input, delta).player.energy() == energy_left(
                JUMP_ENERGY,
                input.is_held(Action::Jump),
                delta,
            )
        },
        simulation.player.jump is None && energy_left(JUMP_ENERGY, input.is_held(Action::Jump), delta) <= 0
            ==> simulation.ticked(input, delta).player.jump is None,
        simulation.player.jump matches Some(jump) ==> simulation.ticked(input, delta).player.energy() == (
        if energy_left(jump.0, input.is_held(Action::Jump), delta) <= 0 {
            0
        } else {
            energy_left(jump.0, input.is_held(Action::Jump), delta)
        }),
{
}

/// From one tick to the next the energy of a jump never grows: a jump that is
/// under way is never started again, whatever is pressed. A rising player
/// keeps its jump exactly while energy is left, and what it keeps is positive.
/// A player that does not rise gets a jump only where the jump action goes
/// down.
pub proof fn lemma_tick_energy_never_grows(simulation: Simulation, input: Input, delta: u64)
    requires
        simulation.wf(),
        simulation.player.has_room(input, delta),
    ensures
        simulation.player.jump is Some || !input.just_pressed(Action::Jump) ==> simulation.ticked(
            input,
            delta,
        ).player.energy() <= simulation.player.energy(),
        simulation.player.jump is None && !input.just_pressed(Action::Jump) ==> simulation.ticked(
            input,
            delta,
        ).player.jump is None,
        simulation.player.jump matches Some(jump) ==> (simulation.ticked(input, delta).player.jump is None
            <==> energy_left(jump.0, input.is_held(Action::Jump), delta) <= 0),
        simulation.ticked(input, delta).player.jump matches Some(rest) ==> rest.0 > 0,
{
}

/// A player that has no jump once the jump system is done ends the tick either
/// where that system left it, if something is in the way of the fall, or
/// exactly `FALL_SPEED` times `delta` lower; a player that still has its jump
/// does not fall.
pub proof fn lemma_tick_falls_or_stays(simulation: Simulation, input: Input, delta: u64)
    requires
        simulation.wf(),
        simulation.player.has_room(input, delta),
    ensures
        ({
            let risen = simulation.player.moved(input, delta).risen(input, delta);
            let after = simulation.ticked(input, delta).player;
            &&& after.position.x == risen.position.x
            &&& risen.jump is Some || risen.blocked(simulation.hitboxs@, delta) ==> after.position.y
                == risen.position.y
            &&& risen.jump is None && !risen.blocked(simulation.hitboxs@, delta) ==> after.position.y
                == risen.position.y - FALL_SPEED * delta
        }),
{
}

} // verus!
