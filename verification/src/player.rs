//! The player and the three systems that move it: walking and starting a jump,
//! rising while a jump lasts, and falling while nothing is in the way.

use vstd::prelude::*;
use crate::animation::{AnimationBundle, FrameTime};
use crate::collision::{check_hit, overlaps, HitBox};
use crate::input::{Action, Input};
use crate::registry::{Animation, Animations, AtlasHandle};
use crate::units::{fits, Position, FALL_SPEED, JUMP_ENERGY, MOVE_SPEED, UNIT};

verus! {

/// Carried by the player while it rises: the energy the jump has left, in
/// length units. It is always positive; a jump that runs out is taken away.
#[derive(Clone, Copy, Debug, PartialEq, Eq, Structural)]
pub struct Jump(pub i64);

/// Whether the player kept its height between the last two ticks.
#[derive(Clone, Copy, Debug, PartialEq, Eq, Structural)]
pub struct Grounded(pub bool);

/// What is drawn for an entity: the atlas and the frame in it.
#[derive(Clone, Copy, Debug, PartialEq, Eq, Structural)]
pub struct Sprite {
    pub atlas: AtlasHandle,
    pub index: usize,
}

/// Something solid that stays where it is.
#[derive(Clone, Copy, Debug, PartialEq, Eq, Structural)]
pub struct Obstacle {
    pub position: Position,
    pub hitbox: HitBox,
}

/// The one entity that the controls move.
#[derive(Clone, Copy, Debug, PartialEq, Eq)]
pub struct Player {
    pub position: Position,
    pub sprite: Sprite,
    pub animation: AnimationBundle,
    pub grounded: Grounded,
    pub hitbox: HitBox,
    pub jump: Option<Jump>,
}

/// Width of the player's box, in world units.
pub const PLAYER_WIDTH: u64 = 18;

/// Height of the player's box, in world units.
pub const PLAYER_HEIGHT: u64 = 32;

/// The height that a jump with `energy` left gains in `delta` microseconds:
/// twice the falling speed, but never more than the energy.
pub open spec fn jump_power(energy: i64, delta: u64) -> int {
    if 2 * FALL_SPEED * delta < energy {
        2 * FALL_SPEED * delta
    } else {
        energy as int
    }
}

/// The energy that a jump with `energy` has left after `delta` microseconds.
/// While the jump action is held the jump pays for the height it gains;
/// once it is let go the jump pays twice that. Zero or less means that the
/// jump is over.
pub open spec fn energy_left(energy: i64, held: bool, delta: u64) -> int {
    if held {
        energy - jump_power(energy, delta)
    } else {
        energy - 2 * jump_power(energy, delta)
    }
}

impl Player {
    /// A rising player has energy left, and its sprite shows a frame of its
    /// animation.
    pub open spec fn wf(self) -> bool {
        &&& self.jump matches Some(jump) ==> jump.0 > 0
        &&& self.animation.animation.wf()
        &&& self.sprite.index < self.animation.animation.len
    }

    /// The energy of the jump, none where the player does not rise.
    pub open spec fn energy(self) -> int {
        match self.jump {
            Some(jump) => jump.0 as int,
            None => 0,
        }
    }

    /// Where walking takes the player horizontally. A press of the jump
    /// action comes before walking, and left comes before right.
    pub open spec fn walk(self, input: Input, delta: u64) -> int {
        if input.just_pressed(Action::Jump) {
            self.position.x as int
        } else if input.is_held(Action::MoveLeft) {
            self.position.x - MOVE_SPEED * delta
        } else if input.is_held(Action::MoveRight) {
            self.position.x + MOVE_SPEED * delta
        } else {
            self.position.x as int
        }
    }

    /// The player after the movement system. A press of the jump action
    /// starts a jump only where none is under way: a jump that lasts is kept
    /// with the energy it has.
    pub open spec fn moved(self, input: Input, delta: u64) -> Player
        recommends
            fits(self.walk(input, delta)),
    {
        Player {
            position: Position { x: self.walk(input, delta) as i64, y: self.position.y },
            jump: if input.just_pressed(Action::Jump) && self.jump is None {
                Some(Jump(JUMP_ENERGY))
            } else {
                self.jump
            },
            ..self
        }
    }

    /// The player after the jump system.
    pub open spec fn risen(self, input: Input, delta: u64) -> Player
        recommends
            self.jump matches Some(jump) ==> jump.0 > 0 && fits(self.position.y + jump_power(jump.0, delta)),
    {
        match self.jump {
            None => self,
            Some(jump) => {
                let left = energy_left(jump.0, input.is_held(Action::Jump), delta);
                Player {
                    position: self.position.shifted(0, jump_power(jump.0, delta)),
                    jump: if left <= 0 {
                        None
                    } else {
                        Some(Jump(left as i64))
                    },
                    ..self
                }
            },
        }
    }

    /// Where the player would be after falling for `delta` microseconds.
    pub open spec fn drop_target(self, delta: u64) -> Position
        recommends
            fits(self.position.y - FALL_SPEED * delta),
    {
        self.position.shifted(0, -(FALL_SPEED * delta))
    }

    /// Whether one of `hitboxs` is in the way of that fall.
    pub open spec fn blocked(self, hitboxs: Seq<Obstacle>, delta: u64) -> bool {
        exists|i: int|
            0 <= i < hitboxs.len() && overlaps(
                self.hitbox,
                self.drop_target(delta),
                (#[trigger] hitboxs[i]).hitbox,
                hitboxs[i].position,
            )
    }

    /// The player after the fall system.
    pub open spec fn fallen(self, hitboxs: Seq<Obstacle>, delta: u64) -> Player
        recommends
            self.jump is None ==> fits(self.position.y - FALL_SPEED * delta),
    {
        if self.jump is Some || self.blocked(hitboxs, delta) {
            self
        } else {
            Player { position: self.drop_target(delta), ..self }
        }
    }
}

/// The solid things of the map: one platform, 200 world units wide and 5
/// high, centred 16 world units under the origin.
pub fn spawn_map() -> (hitboxs: Vec<Obstacle>)
    ensures
        hitboxs@ == seq![
            Obstacle {
                position: Position { x: 0, y: -16_000_000i64 },
                hitbox: HitBox { width: 200_000_000, height: 5_000_000 },
            },
        ],
{
    let mut hitboxs: Vec<Obstacle> = Vec::new();
    hitboxs.push(
        Obstacle {
            position: Position { x: 0, y: -16 * UNIT },
            hitbox: HitBox { width: 200 * (UNIT as u64), height: 5 * (UNIT as u64) },
        },
    );
    proof {
        assert(hitboxs@ =~= seq![
            Obstacle {
                position: Position { x: 0, y: -16_000_000i64 },
                hitbox: HitBox { width: 200_000_000, height: 5_000_000 },
            },
        ]);
    }
    hitboxs
}

/// The player as the game begins: at the origin, on the first frame of the
/// idle animation, grounded and not jumping, in a box 18 world units wide and
/// 32 high. The idle animation must be registered.
pub fn spawn_player(animations: &Animations) -> (player: Player)
    requires
        animations@.contains_key(Animation::PlayerIdle),
    ensures
        player == (Player {
            position: Position { x: 0, y: 0 },
            sprite: Sprite { atlas: animations@[Animation::PlayerIdle].0, index: 0 },
            animation: AnimationBundle {
                animation: animations@[Animation::PlayerIdle].1,
                frame_time: FrameTime(0),
            },
            grounded: Grounded(true),
            hitbox: HitBox { width: 18_000_000, height: 32_000_000 },
            jump: None,
        }),
        player.wf(),
{
    let (atlas, animation) = animations.get(Animation::PlayerIdle).unwrap();
    Player {
        position: Position::origin(),
        sprite: Sprite { atlas, index: 0 },
        animation: AnimationBundle::new(animation),
        grounded: Grounded(true),
        hitbox: HitBox { width: PLAYER_WIDTH * (UNIT as u64), height: PLAYER_HEIGHT * (UNIT as u64) },
        jump: None,
    }
}

/// The movement system. Where the jump action went down since the last tick,
/// the player does not walk this tick; a jump with full energy begins, unless
/// one is under way, which is then kept as it is. Otherwise the player walks
/// left while left is held, else right while right is held. The height never
/// changes here.
pub fn move_player(player: &mut Player, input: &Input, delta: u64)
    requires
        fits(old(player).walk(*input, delta)),
    ensures
        *final(player) == old(player).moved(*input, delta),
        input.just_pressed(Action::Jump) ==> *final(player) == (Player {
            jump: if old(player).jump is None {
                Some(Jump(JUMP_ENERGY))
            } else {
                old(player).jump
            },
            ..*old(player)
        }),
        !input.just_pressed(Action::Jump) ==> final(player).jump == old(player).jump,
        !input.just_pressed(Action::Jump) && input.is_held(Action::MoveLeft) ==> final(player).position.x
            == old(player).position.x - MOVE_SPEED * delta,
        !input.just_pressed(Action::Jump) && !input.is_held(Action::MoveLeft) && input.is_held(
            Action::MoveRight,
        ) ==> final(player).position.x == old(player).position.x + MOVE_SPEED * delta,
        !input.just_pressed(Action::Jump) && !input.is_held(Action::MoveLeft) && !input.is_held(
            Action::MoveRight,
        ) ==> final(player).position.x == old(player).position.x,
        final(player).position.y == old(player).position.y,
        old(player).jump is Some ==> final(player).jump == old(player).jump,
{
    if input.just_pressed(Action::Jump) {
        if player.jump.is_none() {
            player.jump = Some(Jump(JUMP_ENERGY));
        }
        return ;
    }
    assert(MOVE_SPEED * delta == 100 * delta);
    let step: i128 = (MOVE_SPEED as i128) * (delta as i128);
    if input.is_held(Action::MoveLeft) {
        player.position.x = (player.position.x as i128 - step) as i64;
    } else if input.is_held(Action::MoveRight) {
        player.position.x = (player.position.x as i128 + step) as i64;
    }
}

/// The jump system. It does nothing to a player that is not rising. A rising
/// player gains `jump_power` in height, and its jump keeps `energy_left`; a
/// jump with no energy left is taken away.
pub fn player_jump(player: &mut Player, input: &Input, delta: u64)
    requires
        old(player).jump matches Some(jump) ==> jump.0 > 0 && fits(
            old(player).position.y + jump_power(jump.0, delta),
        ),
    ensures
        *final(player) == old(player).risen(*input, delta),
        old(player).jump is None ==> *final(player) == *old(player),
        old(player).jump matches Some(jump) ==> {
            &&& final(player).position.x == old(player).position.x
            &&& final(player).position.y == old(player).position.y + jump_power(jump.0, delta)
            &&& final(player).jump is None <==> energy_left(jump.0, input.is_held(Action::Jump), delta) <= 0
            &&& final(player).jump matches Some(rest) ==> rest.0 == energy_left(
                jump.0,
                input.is_held(Action::Jump),
                delta,
            )
        },
        final(player).jump matches Some(rest) ==> rest.0 > 0,
        final(player).energy() <= old(player).energy(),
{
    let energy: i64 = match player.jump {
        Some(jump) => jump.0,
        None => {
            return ;
        },
    };
    assert(2 * FALL_SPEED * delta == 196 * delta);
    let full: u128 = 2 * (FALL_SPEED as u128) * (delta as u128);
    let power: i64 = if full < energy as u128 {
        full as i64
    } else {
        energy
    };
    player.position.y = player.position.y + power;
    let rest: i64 = if input.is_held(Action::Jump) {
        energy - power
    } else {
        energy - power - power
    };
    if rest <= 0 {
        player.jump = None;
    } else {
        player.jump = Some(Jump(rest));
    }
}

/// The fall system. It does nothing to a rising player. Otherwise the player
/// is tried `FALL_SPEED` times `delta` lower: where its box would there overlap
/// the box of any of `hitboxs`, the player stays exactly where it is; where it
/// would overlap none, the player is moved there.
pub fn player_fall(player: &mut Player, hitboxs: &Vec<Obstacle>, delta: u64)
    requires
        old(player).jump is None ==> fits(old(player).position.y - FALL_SPEED * delta),
    ensures
        *final(player) == old(player).fallen(hitboxs@, delta),
        old(player).jump is Some || old(player).blocked(hitboxs@, delta) ==> *final(player) == *old(player),
        old(player).jump is None && !old(player).blocked(hitboxs@, delta) ==> {
            &&& final(player).position.x == old(player).position.x
            &&& final(player).position.y == old(player).position.y - FALL_SPEED * delta
        },
{
    if player.jump.is_some() {
        return ;
    }
    assert(FALL_SPEED * delta == 98 * delta);
    let drop: i128 = (FALL_SPEED as i128) * (delta as i128);
    let new_pos = Position { x: player.position.x, y: (player.position.y as i128 - drop) as i64 };
    let mut i: usize = 0;
    while i < hitboxs.len()
        invariant
            i <= hitboxs.len(),
            new_pos == player.drop_target(delta),
            *player == *old(player),
            forall|k: int|
                0 <= k < i ==> !overlaps(
                    player.hitbox,
                    new_pos,
                    (#[trigger] hitboxs@[k]).hitbox,
                    hitboxs@[k].position,
                ),
        decreases hitboxs.len() - i,
    {
        if check_hit(player.hitbox, new_pos, hitboxs[i].hitbox, hitboxs[i].position) {
            return ;
        }
        i += 1;
    }
    player.position = new_pos;
}

/// While right is held, left is not, and the jump action does not go down,
/// the movement system takes the player exactly `MOVE_SPEED` times `delta` to
/// the right and changes nothing else.
pub proof fn lemma_walk_right(player: Player, input: Input, delta: u64)
    requires
        input.is_held(Action::MoveRight),
        !input.is_held(Action::MoveLeft),
        !input.just_pressed(Action::Jump),
        fits(player.position.x + MOVE_SPEED * delta),
    ensures
        player.moved(input, delta).position.x == player.position.x + MOVE_SPEED * delta,
        player.moved(input, delta) == (Player {
            position: player.moved(input, delta).position,
            ..player
        }),
        player.moved(input, delta).position.y == player.position.y,
{
}

/// A press of the jump action keeps the player where it is, whatever else is
/// held. A player without a jump gets one with full energy; a jump under way
/// is not started again and keeps its energy.
pub proof fn lemma_jump_press(player: Player, input: Input, delta: u64)
    requires
        input.just_pressed(Action::Jump),
    ensures
        player.moved(input, delta).position == player.position,
        player.jump is None ==> player.moved(input, delta) == (Player {
            jump: Some(Jump(JUMP_ENERGY)),
            ..player
        }),
        player.jump is Some ==> player.moved(input, delta) == player,
{
}

/// The jump system never adds energy and never starts a jump. The jump of a
/// rising player is gone afterwards exactly when no energy is left, and a
/// jump that stays has exactly the energy left, which is positive.
pub proof fn lemma_jump_energy_never_grows(player: Player, input: Input, delta: u64)
    requires
        player.jump matches Some(jump) ==> jump.0 > 0 && fits(
            player.position.y + jump_power(jump.0, delta),
        ),
    ensures
        player.risen(input, delta).energy() <= player.energy(),
        player.jump is None ==> player.risen(input, delta) == player,
        player.jump matches Some(jump) ==> {
            &&& 0 <= jump_power(jump.0, delta) <= jump.0
            &&& player.risen(input, delta).position.x == player.position.x
            &&& player.risen(input, delta).position.y == player.position.y + jump_power(jump.0, delta)
            &&& player.risen(input, delta).jump is None <==> energy_left(
                jump.0,
                input.is_held(Action::Jump),
                delta,
            ) <= 0
            &&& player.risen(input, delta).jump matches Some(rest) ==> 0 < rest.0 == energy_left(
                jump.0,
                input.is_held(Action::Jump),
                delta,
            )
        },
{
}

/// Letting the jump action go drains a jump twice as fast as holding it: over
/// the same time the height gained is the same, a held jump pays that height
/// once and a released jump pays it twice.
pub proof fn lemma_release_drains_twice(player: Player, held: Input, released: Input, delta: u64)
    requires
        player.jump matches Some(jump) && jump.0 > 0,
        held.is_held(Action::Jump),
        !released.is_held(Action::Jump),
        fits(player.position.y + jump_power(player.energy() as i64, delta)),
    ensures
        0 <= jump_power(player.energy() as i64, delta) <= player.energy(),
        player.risen(held, delta).position == player.risen(released, delta).position,
        energy_left(player.energy() as i64, true, delta) == player.energy() - jump_power(
            player.energy() as i64,
            delta,
        ),
        energy_left(player.energy() as i64, false, delta) == player.energy() - 2 * jump_power(
            player.energy() as i64,
            delta,
        ),
        player.energy() - energy_left(player.energy() as i64, false, delta) == 2 * (player.energy()
            - energy_left(player.energy() as i64, true, delta)),
        player.risen(held, delta).jump matches Some(rest) ==> rest.0 == player.energy() - jump_power(
            player.energy() as i64,
            delta,
        ),
        player.risen(released, delta).jump matches Some(rest) ==> rest.0 == player.energy() - 2 * jump_power(
            player.energy() as i64,
            delta,
        ),
        player.risen(released, delta).energy() <= player.risen(held, delta).energy(),
{
}

/// A player without a jump that would overlap any of `hitboxs` after the fall
/// stays exactly as it is; one that would overlap none ends `FALL_SPEED` times
/// `delta` lower, with nothing else changed. A rising player does not fall.
pub proof fn lemma_fall_is_whole_or_not_at_all(player: Player, hitboxs: Seq<Obstacle>, delta: u64)
    requires
        player.jump is None ==> fits(player.position.y - FALL_SPEED * delta),
    ensures
        player.jump is Some || player.blocked(hitboxs, delta) ==> player.fallen(hitboxs, delta) == player,
        player.jump is None && !player.blocked(hitboxs, delta) ==> {
            &&& player.fallen(hitboxs, delta).position.x == player.position.x
            &&& player.fallen(hitboxs, delta).position.y == player.position.y - FALL_SPEED * delta
            &&& player.fallen(hitboxs, delta) == (Player {
                position: player.fallen(hitboxs, delta).position,
                ..player
            })
        },
        forall|i: int|
            0 <= i < hitboxs.len() && overlaps(
                player.hitbox,
                player.drop_target(delta),
                (#[trigger] hitboxs[i]).hitbox,
                hitboxs[i].position,
            ) ==> player.blocked(hitboxs, delta),
{
}

/// The player's box, centred on the vertical through the origin at height `y`,
/// overlaps the platform of the map exactly while `y` is less than 18.5 world
/// units away from the platform's centre, 16 world units under the origin. At
/// exactly 18.5 world units the two touch and do not overlap.
pub proof fn lemma_player_meets_platform(y: i64)
    ensures
        overlaps(
            HitBox { width: 18_000_000, height: 32_000_000 },
            Position { x: 0, y },
            HitBox { width: 200_000_000, height: 5_000_000 },
            Position { x: 0, y: -16_000_000i64 },
        ) <==> -18_500_000 < y + 16_000_000 < 18_500_000,
{
}

} // verus!
