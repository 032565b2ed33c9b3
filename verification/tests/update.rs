use sprite_walk::geometry::{MAX_POSITION, MIN_POSITION};
use sprite_walk::{update, Direction, Player, Point, Rect, FRAME_COUNT};

fn walker() -> Player {
    Player::new(Rect::new(0, 0, 26, 36))
}

#[test]
fn new_player_stands_at_the_origin() {
    let player = walker();
    assert_eq!(player.position, Point { x: 0, y: 0 });
    assert_eq!(player.velocity, Point { x: 0, y: 0 });
    assert_eq!(player.sprite, Rect { x: 0, y: 0, w: 26, h: 36 });
    assert_eq!(player.current_frame, 0);
    assert_eq!(player.facing, Direction::Down);
    assert!(player.is_wf());
}

#[test]
fn walk_cycle_has_three_frames() {
    assert_eq!(FRAME_COUNT, 3);
}

#[test]
fn standing_player_is_left_unchanged() {
    let mut player = walker();
    player.position = Point::new(40, -25);
    player.current_frame = 2;
    player.facing = Direction::Left;
    let before = player;
    update(&mut player);
    assert_eq!(player, before);
    update(&mut player);
    assert_eq!(player, before);
}

#[test]
fn three_ticks_to_the_right_go_round_the_cycle() {
    let mut player = walker();
    player.velocity = Point::new(5, 0);
    update(&mut player);
    assert_eq!((player.current_frame, player.position), (1, Point { x: 5, y: 0 }));
    update(&mut player);
    assert_eq!((player.current_frame, player.position), (2, Point { x: 10, y: 0 }));
    update(&mut player);
    assert_eq!((player.current_frame, player.position), (0, Point { x: 15, y: 0 }));
    assert_eq!(player.facing, Direction::Right);
}

#[test]
fn update_turns_the_player_the_way_it_moves() {
    for (velocity, facing) in [
        (Point::new(0, 5), Direction::Down),
        (Point::new(0, -5), Direction::Up),
        (Point::new(5, 0), Direction::Right),
        (Point::new(-5, 0), Direction::Left),
        (Point::new(5, 5), Direction::Down),
        (Point::new(-5, -5), Direction::Up),
    ] {
        let mut player = walker();
        player.velocity = velocity;
        update(&mut player);
        assert_eq!(player.facing, facing);
        assert_eq!(player.position, velocity);
        assert_eq!(player.current_frame, 1);
    }
}

#[test]
fn update_keeps_velocity_and_sprite() {
    let mut player = walker();
    player.velocity = Point::new(-10, 5);
    update(&mut player);
    assert_eq!(player.velocity, Point { x: -10, y: 5 });
    assert_eq!(player.sprite, Rect { x: 0, y: 0, w: 26, h: 36 });
    assert_eq!(player.position, Point { x: -10, y: 5 });
}

#[test]
fn update_keeps_the_facing_of_the_last_movement() {
    let mut player = walker();
    player.velocity = Point::new(0, -5);
    update(&mut player);
    player.velocity = Point::new(0, 0);
    update(&mut player);
    assert_eq!(player.facing, Direction::Up);
    assert_eq!(player.current_frame, 1);
    assert_eq!(player.position, Point { x: 0, y: -5 });
}

#[test]
fn update_stops_at_the_edge_of_the_grid() {
    let mut player = walker();
    player.position = Point::new(MAX_POSITION - 3, MIN_POSITION + 3);
    player.velocity = Point::new(5, -5);
    update(&mut player);
    assert_eq!(player.position, Point { x: MAX_POSITION, y: MIN_POSITION });
    assert_eq!(player.current_frame, 1);
    update(&mut player);
    assert_eq!(player.position, Point { x: MAX_POSITION, y: MIN_POSITION });
    assert_eq!(player.current_frame, 2);
    assert!(player.is_wf());
}

#[test]
fn frames_stay_in_the_cycle_over_many_ticks() {
    let mut player = walker();
    player.velocity = Point::new(-5, 5);
    for tick in 1..=100 {
        update(&mut player);
        assert_eq!(player.current_frame, tick % 3);
        assert_eq!(player.position, Point { x: -5 * tick, y: 5 * tick });
        assert!(player.is_wf());
    }
}

#[test]
fn is_wf_tells_a_frame_outside_the_cycle() {
    let mut player = walker();
    assert!(player.is_wf());
    player.current_frame = 3;
    assert!(!player.is_wf());
    player.current_frame = -1;
    assert!(!player.is_wf());
    player.current_frame = 2;
    player.velocity = Point { x: i32::MAX, y: 0 };
    assert!(!player.is_wf());
}
