use puri_platformer::animation::{AnimationBundle, FrameTime, SpriteAnimation};
use puri_platformer::collision::HitBox;
use puri_platformer::input::{Actions, Input};
use puri_platformer::player::{
    move_player, player_fall, player_jump, spawn_map, spawn_player, Grounded, Jump, Obstacle, Player, Sprite,
    PLAYER_HEIGHT, PLAYER_WIDTH,
};
use puri_platformer::registry::{Animations, AtlasHandle};
use puri_platformer::units::{Position, FALL_SPEED, JUMP_ENERGY, MOVE_SPEED, SECOND, UNIT};

fn player_at(x: i64, y: i64) -> Player {
    let mut player = spawn_player(&Animations::from_atlases(AtlasHandle(3)));
    player.position = Position { x, y };
    player
}

fn rising(y: i64, energy: i64) -> Player {
    let mut player = player_at(0, y);
    player.jump = Some(Jump(energy));
    player
}

fn holding(move_left: bool, move_right: bool, jump: bool) -> Input {
    Input { held: Actions { move_left, move_right, jump }, pressed: Actions::none() }
}

fn pressing_jump(move_left: bool, move_right: bool) -> Input {
    Input {
        held: Actions { move_left, move_right, jump: true },
        pressed: Actions { move_left: false, move_right: false, jump: true },
    }
}

#[test]
fn scales_and_speeds() {
    assert_eq!(UNIT, 1_000_000);
    assert_eq!(SECOND, 1_000_000);
    assert_eq!(MOVE_SPEED, 100);
    assert_eq!(FALL_SPEED, 98);
    assert_eq!(JUMP_ENERGY, 100_000_000);
    assert_eq!(Position::origin(), Position { x: 0, y: 0 });
}

#[test]
fn map_is_one_platform_under_the_origin() {
    assert_eq!(
        spawn_map(),
        vec![Obstacle {
            position: Position { x: 0, y: -16_000_000 },
            hitbox: HitBox { width: 200_000_000, height: 5_000_000 },
        }]
    );
}

#[test]
fn player_spawns_grounded_at_the_origin() {
    let player = spawn_player(&Animations::from_atlases(AtlasHandle(9)));
    assert_eq!(
        player,
        Player {
            position: Position { x: 0, y: 0 },
            sprite: Sprite { atlas: AtlasHandle(9), index: 0 },
            animation: AnimationBundle {
                animation: SpriteAnimation { len: 6, frame_time: 200_000 },
                frame_time: FrameTime(0),
            },
            grounded: Grounded(true),
            hitbox: HitBox { width: 18_000_000, height: 32_000_000 },
            jump: None,
        }
    );
    assert_eq!((PLAYER_WIDTH, PLAYER_HEIGHT), (18, 32));
    assert!(player.is_wf());
}

#[test]
fn holding_right_moves_right_by_speed_times_time() {
    let mut player = player_at(5 * UNIT, 7 * UNIT);
    move_player(&mut player, &holding(false, true, false), 16_667);
    assert_eq!(player, player_at(5 * UNIT + 1_666_700, 7 * UNIT));
    move_player(&mut player, &holding(false, true, true), 1_000_000);
    assert_eq!(player, player_at(106_666_700, 7 * UNIT));
}

#[test]
fn holding_left_moves_left_by_speed_times_time() {
    let mut player = player_at(0, 0);
    move_player(&mut player, &holding(true, false, false), 250_000);
    assert_eq!(player, player_at(-25 * UNIT, 0));
}

#[test]
fn left_wins_over_right() {
    let mut player = player_at(0, 0);
    move_player(&mut player, &holding(true, true, false), 10_000);
    assert_eq!(player, player_at(-UNIT, 0));
}

#[test]
fn nothing_held_or_no_time_moves_nothing() {
    let mut player = player_at(11, -13);
    move_player(&mut player, &Input::idle(), 1_000_000);
    assert_eq!(player, player_at(11, -13));
    move_player(&mut player, &holding(false, true, false), 0);
    assert_eq!(player, player_at(11, -13));
    move_player(&mut player, &holding(true, false, false), 0);
    assert_eq!(player, player_at(11, -13));
}

#[test]
fn walking_does_not_touch_a_jump_under_way() {
    let mut player = rising(4, 77);
    move_player(&mut player, &holding(false, true, true), 1);
    assert_eq!(player.jump, Some(Jump(77)));
    assert_eq!(player.position, Position { x: 100, y: 4 });
}

#[test]
fn jump_press_starts_a_full_jump_and_skips_walking() {
    for (left, right) in [(false, false), (true, false), (false, true), (true, true)] {
        let mut player = player_at(3 * UNIT, 2 * UNIT);
        move_player(&mut player, &pressing_jump(left, right), 20_000);
        assert_eq!(player, rising(2 * UNIT, 100_000_000).with_x(3 * UNIT));
    }
}

#[test]
fn jump_press_during_a_jump_keeps_the_jump_and_skips_walking() {
    for (left, right) in [(false, false), (true, false), (false, true), (true, true)] {
        let mut player = rising(40 * UNIT, 12_345);
        move_player(&mut player, &pressing_jump(left, right), 20_000);
        assert_eq!(player, rising(40 * UNIT, 12_345));
    }
    let mut player = rising(0, JUMP_ENERGY - 1);
    move_player(&mut player, &pressing_jump(false, false), 0);
    assert_eq!(player.jump, Some(Jump(JUMP_ENERGY - 1)));
    let mut player = rising(0, 1);
    move_player(&mut player, &pressing_jump(false, false), 1);
    assert_eq!(player.jump, Some(Jump(1)));
}

#[test]
fn pressed_jump_never_adds_energy_to_a_jump() {
    let mut player = rising(0, JUMP_ENERGY);
    let mut before = JUMP_ENERGY;
    let mut ticks = 0;
    while player.jump.is_some() {
        move_player(&mut player, &pressing_jump(false, true), 10_000);
        assert_eq!(player.jump, Some(Jump(before)));
        player_jump(&mut player, &pressing_jump(false, true), 10_000);
        if let Some(Jump(after)) = player.jump {
            assert_eq!(after, before - 1_960_000);
            before = after;
        }
        ticks += 1;
    }
    assert_eq!(ticks, 52);
    assert_eq!(player.position, Position { x: 0, y: 100 * UNIT });
}

#[test]
fn walking_reaches_the_ends_of_the_axis() {
    let mut player = player_at(i64::MAX - 100, 0);
    move_player(&mut player, &holding(false, true, false), 1);
    assert_eq!(player.position.x, i64::MAX);
    let mut player = player_at(i64::MAX, 0);
    move_player(&mut player, &holding(true, false, false), 184_467_440_737_095_516);
    assert_eq!(player.position.x, i64::MIN + 15);
}

#[test]
fn held_jump_pays_the_height_once() {
    let mut player = rising(0, JUMP_ENERGY);
    player_jump(&mut player, &holding(false, false, true), 100_000);
    assert_eq!(player, rising(19_600_000, 80_400_000));
}

#[test]
fn released_jump_pays_the_height_twice() {
    let mut player = rising(0, JUMP_ENERGY);
    player_jump(&mut player, &Input::idle(), 100_000);
    assert_eq!(player, rising(19_600_000, 60_800_000));
}

#[test]
fn release_drains_at_twice_the_rate_of_holding() {
    for (energy, delta) in [(JUMP_ENERGY, 10_000), (50 * UNIT, 100_000), (3_000_000, 7_000), (JUMP_ENERGY, 0)] {
        let mut held = rising(0, energy);
        let mut released = rising(0, energy);
        player_jump(&mut held, &holding(false, false, true), delta);
        player_jump(&mut released, &holding(true, true, false), delta);
        let power = 196 * delta as i64;
        assert_eq!(held.position.y, power);
        assert_eq!(released.position.y, power);
        assert_eq!(held.jump, Some(Jump(energy - power)).filter(|_| energy - power > 0));
        assert_eq!(released.jump, Some(Jump(energy - 2 * power)).filter(|_| energy - 2 * power > 0));
    }
}

#[test]
fn jump_never_gains_more_than_its_energy() {
    let mut player = rising(10 * UNIT, 3 * UNIT);
    player_jump(&mut player, &holding(false, false, true), 1_000_000);
    assert_eq!(player, player_at(0, 13 * UNIT));
    let mut player = rising(10 * UNIT, 3 * UNIT);
    player_jump(&mut player, &Input::idle(), u64::MAX);
    assert_eq!(player, player_at(0, 13 * UNIT));
}

#[test]
fn jump_ends_when_its_energy_is_used_up_exactly() {
    let mut player = rising(0, 1_960_000);
    player_jump(&mut player, &holding(false, false, true), 10_000);
    assert_eq!(player, player_at(0, 1_960_000));
    let mut player = rising(0, 1_960_001);
    player_jump(&mut player, &holding(false, false, true), 10_000);
    assert_eq!(player, rising(1_960_000, 1));
    let mut player = rising(0, 3_920_000);
    player_jump(&mut player, &Input::idle(), 10_000);
    assert_eq!(player, player_at(0, 1_960_000));
    let mut player = rising(0, 3_920_001);
    player_jump(&mut player, &Input::idle(), 10_000);
    assert_eq!(player, rising(1_960_000, 1));
}

#[test]
fn jump_of_no_time_keeps_its_energy() {
    let mut player = rising(5, 17);
    player_jump(&mut player, &Input::idle(), 0);
    assert_eq!(player, rising(5, 17));
}

#[test]
fn jump_system_leaves_a_player_without_jump_alone() {
    let mut player = player_at(1, 2);
    player_jump(&mut player, &holding(false, false, true), 500_000);
    assert_eq!(player, player_at(1, 2));
}

#[test]
fn energy_never_grows_until_the_jump_is_gone() {
    let mut player = rising(0, JUMP_ENERGY);
    let mut ticks = 0;
    while let Some(Jump(before)) = player.jump {
        let input = if ticks % 3 == 0 { Input::idle() } else { holding(false, false, true) };
        player_jump(&mut player, &input, 16_667);
        match player.jump {
            Some(Jump(after)) => assert!(0 < after && after < before),
            None => assert!(before <= 2 * 196 * 16_667),
        }
        ticks += 1;
    }
    assert_eq!(ticks, 23);
    assert_eq!(player.position.y, 73_866_144);
}

#[test]
fn free_fall_drops_by_speed_times_time() {
    let mut player = player_at(4 * UNIT, 100 * UNIT);
    player_fall(&mut player, &spawn_map(), 500_000);
    assert_eq!(player, player_at(4 * UNIT, 51 * UNIT));
    player_fall(&mut player, &spawn_map(), 16_667);
    assert_eq!(player, player_at(4 * UNIT, 51 * UNIT - 1_633_366));
}

#[test]
fn fall_into_a_box_is_dropped_whole() {
    let mut player = player_at(4 * UNIT, 51 * UNIT);
    player_fall(&mut player, &spawn_map(), 500_000);
    assert_eq!(player, player_at(4 * UNIT, 51 * UNIT));
    let mut player = player_at(0, 2_500_000);
    player_fall(&mut player, &spawn_map(), 1);
    assert_eq!(player, player_at(0, 2_500_000));
}

#[test]
fn fall_that_ends_touching_a_box_is_made() {
    let mut player = player_at(0, 2_500_000 + 98);
    player_fall(&mut player, &spawn_map(), 1);
    assert_eq!(player, player_at(0, 2_500_000));
}

#[test]
fn fall_past_the_side_of_a_box_is_made() {
    let mut player = player_at(109 * UNIT, 3 * UNIT);
    player_fall(&mut player, &spawn_map(), 100_000);
    assert_eq!(player, player_at(109 * UNIT, -6_800_000));
    let mut player = player_at(109 * UNIT - 1, 3 * UNIT);
    player_fall(&mut player, &spawn_map(), 100_000);
    assert_eq!(player, player_at(109 * UNIT - 1, 3 * UNIT));
}

#[test]
fn fall_through_a_box_in_one_long_tick_is_made() {
    let mut player = player_at(0, 10 * UNIT);
    player_fall(&mut player, &spawn_map(), 1_000_000);
    assert_eq!(player, player_at(0, -88 * UNIT));
}

#[test]
fn any_box_in_the_way_stops_the_fall() {
    let far = Obstacle { position: Position { x: 900 * UNIT, y: 0 }, hitbox: HitBox { width: UNIT as u64, height: UNIT as u64 } };
    let under = Obstacle { position: Position { x: 0, y: 0 }, hitbox: HitBox { width: 4 * UNIT as u64, height: 2 * UNIT as u64 } };
    for hitboxs in [vec![under, far], vec![far, under], vec![far, far, under, far]] {
        let mut player = player_at(0, 17 * UNIT + 1);
        player_fall(&mut player, &hitboxs, 1);
        assert_eq!(player, player_at(0, 17 * UNIT + 1));
    }
    let mut player = player_at(0, 17 * UNIT + 1);
    player_fall(&mut player, &vec![far, far], 1);
    assert_eq!(player, player_at(0, 17 * UNIT - 97));
}

#[test]
fn nothing_stops_a_fall_in_an_empty_map() {
    let mut player = player_at(0, 0);
    player_fall(&mut player, &Vec::new(), 2_000_000);
    assert_eq!(player, player_at(0, -196 * UNIT));
}

#[test]
fn fall_of_no_time_stays() {
    let mut player = player_at(0, 50 * UNIT);
    player_fall(&mut player, &spawn_map(), 0);
    assert_eq!(player, player_at(0, 50 * UNIT));
}

#[test]
fn rising_player_does_not_fall() {
    let mut player = rising(50 * UNIT, 1);
    player_fall(&mut player, &spawn_map(), 500_000);
    assert_eq!(player, rising(50 * UNIT, 1));
}

#[test]
fn fall_reaches_the_lower_end_of_the_axis() {
    let mut player = player_at(0, i64::MIN + 98);
    player_fall(&mut player, &Vec::new(), 1);
    assert_eq!(player.position.y, i64::MIN);
}

#[test]
fn well_formed_players_are_told_from_others() {
    assert!(player_at(0, 0).is_wf());
    assert!(rising(0, 1).is_wf());
    assert!(!rising(0, 0).is_wf());
    assert!(!rising(0, -5).is_wf());
    let mut player = player_at(0, 0);
    player.sprite.index = 6;
    assert!(!player.is_wf());
    player.sprite.index = 5;
    assert!(player.is_wf());
    player.animation.animation.frame_time = 0;
    assert!(!player.is_wf());
    player.animation.animation.frame_time = 1;
    player.animation.animation.len = 0;
    assert!(!player.is_wf());
}

trait WithX {
    fn with_x(self, x: i64) -> Self;
}

impl WithX for Player {
    fn with_x(mut self, x: i64) -> Self {
        self.position.x = x;
        self
    }
}
