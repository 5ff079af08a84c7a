use puri_platformer::ground::{ground_detection, GroundDetection};
use puri_platformer::player::{spawn_player, Grounded, Jump, Player};
use puri_platformer::registry::{Animations, AtlasHandle};
use puri_platformer::units::{Position, UNIT};

fn player_at(x: i64, y: i64) -> Player {
    let mut player = spawn_player(&Animations::from_atlases(AtlasHandle(0)));
    player.position = Position { x, y };
    player
}

#[test]
fn grounded_compares_with_the_tick_before() {
    let mut memory = GroundDetection::new(Position { x: 0, y: 10 * UNIT });
    let mut player = player_at(0, 10 * UNIT);
    ground_detection(&mut player, &mut memory);
    assert_eq!(player.grounded, Grounded(true));
    ground_detection(&mut player, &mut memory);
    assert_eq!(player.grounded, Grounded(true));
    player.position.y = 9 * UNIT;
    ground_detection(&mut player, &mut memory);
    assert_eq!(player.grounded, Grounded(false));
    ground_detection(&mut player, &mut memory);
    assert_eq!(player.grounded, Grounded(true));
}

#[test]
fn smallest_change_of_height_clears_the_flag() {
    let mut memory = GroundDetection::new(Position { x: 0, y: 0 });
    let mut player = player_at(0, 1);
    ground_detection(&mut player, &mut memory);
    assert_eq!(player.grounded, Grounded(false));
    player.position.y = 0;
    ground_detection(&mut player, &mut memory);
    assert_eq!(player.grounded, Grounded(false));
}

#[test]
fn sliding_sideways_counts_as_grounded() {
    let mut memory = GroundDetection::new(Position { x: 0, y: 3 });
    let mut player = player_at(50 * UNIT, 3);
    ground_detection(&mut player, &mut memory);
    assert_eq!(player.grounded, Grounded(true));
    assert_eq!(memory, GroundDetection { last: Position { x: 50 * UNIT, y: 3 } });
}

#[test]
fn hanging_in_the_air_counts_as_grounded() {
    let mut memory = GroundDetection::new(Position { x: 0, y: 500 * UNIT });
    let mut player = player_at(0, 500 * UNIT);
    player.jump = Some(Jump(7));
    player.grounded = Grounded(false);
    ground_detection(&mut player, &mut memory);
    assert_eq!(player.grounded, Grounded(true));
    assert_eq!(player.jump, Some(Jump(7)));
}

#[test]
fn place_is_remembered_whether_the_flag_changes_or_not() {
    let mut memory = GroundDetection::new(Position { x: 1, y: 1 });
    let mut player = player_at(2, 2);
    player.grounded = Grounded(false);
    ground_detection(&mut player, &mut memory);
    assert_eq!(memory.last, Position { x: 2, y: 2 });
    assert_eq!(player, {
        let mut same = player_at(2, 2);
        same.grounded = Grounded(false);
        same
    });
    player.position = Position { x: 3, y: 2 };
    ground_detection(&mut player, &mut memory);
    assert_eq!(memory.last, Position { x: 3, y: 2 });
    assert_eq!(player.grounded, Grounded(true));
}
