use arkanoid::field::Field;
use arkanoid::geometry::Vec2;
use arkanoid::input::Input;
use arkanoid::player::{
    Player, PlayerDirection, MOVEMENT_SPEED, MOVEMENT_SPEED_BOOST, PADDLE_ALTITUDE,
    PADDLE_HEIGHT, PADDLE_WIDTH,
};

fn idle() -> Input {
    Input { move_left: false, move_right: false, boost: false, pause_or_confirm: false }
}

fn field() -> Field {
    Field::new(12800, 7200)
}

#[test]
fn paddle_constants() {
    assert_eq!(MOVEMENT_SPEED, 15);
    assert_eq!(MOVEMENT_SPEED_BOOST, 20);
    assert_eq!(PADDLE_WIDTH, 1000);
    assert_eq!(PADDLE_HEIGHT, 200);
    assert_eq!(PADDLE_ALTITUDE, 1000);
    assert_eq!(Player::initialize(&field()).get_default_size(), Vec2 { x: 1000, y: 200 });
}

#[test]
fn paddle_spawns_centred_near_the_bottom() {
    let p = Player::initialize(&field());
    assert_eq!(p.position, Vec2 { x: 0, y: -2600 });
    assert_eq!(p.direction, None);
    assert!(p.can_move_left);
    assert!(p.can_move_right);
    assert!(!p.boosting);
}

#[test]
fn paddle_reset_restores_spawn_state() {
    let mut p = Player {
        position: Vec2 { x: 5900, y: 17 },
        direction: Some(PlayerDirection::Left),
        can_move_left: true,
        can_move_right: false,
        boosting: true,
    };
    p.reset(&field());
    assert_eq!(p, Player::initialize(&field()));
}

#[test]
fn steering_left_sets_intent() {
    let mut p = Player::initialize(&field());
    p.process_player_input(&Input { move_left: true, ..idle() });
    assert_eq!(p.direction, Some(PlayerDirection::Left));
    assert!(p.can_move_right);
    assert!(!p.boosting);
}

#[test]
fn steering_right_sets_intent_and_boost() {
    let mut p = Player::initialize(&field());
    p.process_player_input(&Input { move_right: true, boost: true, ..idle() });
    assert_eq!(p.direction, Some(PlayerDirection::Right));
    assert!(p.can_move_left);
    assert!(p.boosting);
}

#[test]
fn intent_outlasts_the_key() {
    let mut p = Player::initialize(&field());
    p.process_player_input(&Input { move_left: true, boost: true, ..idle() });
    p.process_player_input(&idle());
    assert_eq!(p.direction, Some(PlayerDirection::Left));
    assert!(!p.boosting);
}

#[test]
fn both_keys_steer_right() {
    let mut p = Player::initialize(&field());
    p.process_player_input(&Input { move_left: true, move_right: true, ..idle() });
    assert_eq!(p.direction, Some(PlayerDirection::Right));
    assert!(p.can_move_left);
    assert!(p.can_move_right);
}

#[test]
fn blocked_side_ignores_its_key() {
    let mut p = Player::initialize(&field());
    p.can_move_right = false;
    p.process_player_input(&Input { move_right: true, ..idle() });
    assert_eq!(p.direction, None);
    assert!(!p.can_move_right);
    let mut p = Player::initialize(&field());
    p.can_move_left = false;
    p.process_player_input(&Input { move_left: true, ..idle() });
    assert_eq!(p.direction, None);
    assert!(!p.can_move_left);
}

#[test]
fn steering_away_unblocks_the_other_side() {
    let mut p = Player::initialize(&field());
    p.can_move_right = false;
    p.process_player_input(&Input { move_left: true, ..idle() });
    assert_eq!(p.direction, Some(PlayerDirection::Left));
    assert!(p.can_move_right);
}

#[test]
fn left_unblocks_right_within_one_reading() {
    // Right is blocked, both keys are held: left is taken first and re-allows
    // right, which then wins.
    let mut p = Player::initialize(&field());
    p.can_move_right = false;
    p.process_player_input(&Input { move_left: true, move_right: true, ..idle() });
    assert_eq!(p.direction, Some(PlayerDirection::Right));
    assert!(p.can_move_left);
    assert!(p.can_move_right);
}

#[test]
fn movement_uses_base_speed() {
    let mut p = Player::initialize(&field());
    p.direction = Some(PlayerDirection::Right);
    p.update_player_movement();
    assert_eq!(p.position, Vec2 { x: 15, y: -2600 });
    p.direction = Some(PlayerDirection::Left);
    p.update_player_movement();
    p.update_player_movement();
    assert_eq!(p.position, Vec2 { x: -15, y: -2600 });
}

#[test]
fn movement_uses_boosted_speed() {
    let mut p = Player::initialize(&field());
    p.direction = Some(PlayerDirection::Left);
    p.boosting = true;
    p.update_player_movement();
    assert_eq!(p.position, Vec2 { x: -35, y: -2600 });
    p.direction = Some(PlayerDirection::Right);
    p.update_player_movement();
    p.update_player_movement();
    assert_eq!(p.position, Vec2 { x: 35, y: -2600 });
}

#[test]
fn movement_without_intent_stays() {
    let mut p = Player::initialize(&field());
    p.boosting = true;
    p.update_player_movement();
    assert_eq!(p.position, Vec2 { x: 0, y: -2600 });
}

#[test]
fn clamp_at_right_edge() {
    // Half the field is 6400, half the paddle 500: the paddle may reach 5900.
    let mut p = Player::initialize(&field());
    p.position.x = 5910;
    p.direction = Some(PlayerDirection::Right);
    p.process_player_collision(&field());
    assert_eq!(p.position.x, 5900);
    assert_eq!(p.direction, None);
    assert!(!p.can_move_right);
    assert!(p.can_move_left);
}

#[test]
fn clamp_at_left_edge() {
    let mut p = Player::initialize(&field());
    p.position.x = -5935;
    p.direction = Some(PlayerDirection::Left);
    p.can_move_right = false;
    p.process_player_collision(&field());
    assert_eq!(p.position.x, -5900);
    assert_eq!(p.direction, None);
    assert!(!p.can_move_left);
    assert!(p.can_move_right);
}

#[test]
fn touching_the_edge_stops_the_paddle() {
    let mut p = Player::initialize(&field());
    p.position.x = 5900;
    p.direction = Some(PlayerDirection::Right);
    p.process_player_collision(&field());
    assert_eq!(p.position.x, 5900);
    assert_eq!(p.direction, None);
    assert!(!p.can_move_right);
    let mut p = Player::initialize(&field());
    p.position.x = -5900;
    p.direction = Some(PlayerDirection::Left);
    p.process_player_collision(&field());
    assert_eq!(p.position.x, -5900);
    assert_eq!(p.direction, None);
    assert!(!p.can_move_left);
}

#[test]
fn clamp_leaves_a_paddle_inside_alone() {
    let mut p = Player::initialize(&field());
    p.position.x = 5899;
    p.direction = Some(PlayerDirection::Right);
    p.boosting = true;
    let before = p;
    p.process_player_collision(&field());
    assert_eq!(p, before);
    p.position.x = -5899;
    let before = p;
    p.process_player_collision(&field());
    assert_eq!(p, before);
}

#[test]
fn clamp_handles_extreme_positions() {
    let mut p = Player::initialize(&field());
    p.position.x = i32::MAX;
    p.process_player_collision(&field());
    assert_eq!(p.position.x, 5900);
    p.position.x = i32::MIN;
    p.process_player_collision(&field());
    assert_eq!(p.position.x, -5900);
}

#[test]
fn paddle_stays_inside_while_driven_right_then_left() {
    let f = field();
    let mut p = Player::initialize(&f);
    let right = Input { move_right: true, boost: true, ..idle() };
    let left = Input { move_left: true, ..idle() };
    for step in 0..2000 {
        let input = if step < 1000 { right } else { left };
        p.process_player_input(&input);
        p.update_player_movement();
        p.process_player_collision(&f);
        assert!(-5900 <= p.position.x && p.position.x <= 5900);
    }
    assert_eq!(p.position.x, -5900);
    assert!(!p.can_move_left);
}
