use arkanoid::ball::{Ball, BALL_INIT_SPEED, BALL_RADIUS};
use arkanoid::field::Field;
use arkanoid::geometry::Vec2;

fn ball(x: i32, y: i32, dx: i32, dy: i32, speed: i32) -> Ball {
    Ball { position: Vec2 { x, y }, speed, direction: (dx, dy) }
}

#[test]
fn ball_constants() {
    assert_eq!(BALL_RADIUS, 100);
    assert_eq!(BALL_INIT_SPEED, 30);
    assert_eq!(Ball::initialize().get_default_radius(), 100);
}

#[test]
fn served_ball_is_centred_heading_up_right() {
    assert_eq!(Ball::initialize(), ball(0, 0, 1, 1, 30));
}

#[test]
fn reset_restores_the_served_ball() {
    let mut b = ball(1234, -567, -1, 0, 44);
    b.reset();
    assert_eq!(b, ball(0, 0, 1, 1, 30));
}

#[test]
fn served_ball_is_valid() {
    assert!(Ball::initialize().is_valid());
    assert!(ball(0, 0, 1, 0, 30).is_valid());
    assert!(ball(0, 0, 0, -1, 31).is_valid());
}

#[test]
fn invalid_balls_are_told() {
    assert!(!ball(0, 0, 0, 0, 30).is_valid());
    assert!(!ball(0, 0, 2, 1, 30).is_valid());
    assert!(!ball(0, 0, 1, -2, 30).is_valid());
    assert!(!ball(0, 0, 1, 1, 29).is_valid());
}

#[test]
fn movement_adds_speed_along_heading() {
    let mut b = ball(10, 20, 1, -1, 30);
    b.update_ball_movement();
    assert_eq!(b, ball(40, -10, 1, -1, 30));
    let mut b = ball(10, 20, -1, 1, 32);
    b.update_ball_movement();
    assert_eq!(b, ball(-22, 52, -1, 1, 32));
}

#[test]
fn movement_leaves_an_axis_without_heading_alone() {
    let mut b = ball(10, 20, 0, 1, 30);
    b.update_ball_movement();
    assert_eq!(b, ball(10, 50, 0, 1, 30));
    let mut b = ball(10, 20, -1, 0, 30);
    b.update_ball_movement();
    assert_eq!(b, ball(-20, 20, -1, 0, 30));
}

#[test]
fn right_edge_turns_ball_left() {
    let field = Field::new(12800, 7200);
    // The limit is 6400 - 100 = 6300.
    let mut b = ball(6300, 0, 1, 1, 30);
    b.update_ball_direction(&field);
    assert_eq!(b.direction, (-1, 1));
    let mut b = ball(6299, 0, 1, 1, 30);
    b.update_ball_direction(&field);
    assert_eq!(b.direction, (1, 1));
}

#[test]
fn left_edge_turns_ball_right() {
    let field = Field::new(12800, 7200);
    let mut b = ball(-6300, 0, -1, 1, 30);
    b.update_ball_direction(&field);
    assert_eq!(b.direction, (1, 1));
    let mut b = ball(-6299, 0, -1, 1, 30);
    b.update_ball_direction(&field);
    assert_eq!(b.direction, (-1, 1));
}

#[test]
fn top_edge_turns_ball_down() {
    let field = Field::new(12800, 7200);
    // The limit is 3600 - 100 = 3500.
    let mut b = ball(0, 3500, 1, 1, 30);
    b.update_ball_direction(&field);
    assert_eq!(b.direction, (1, -1));
    let mut b = ball(0, 3499, 1, 1, 30);
    b.update_ball_direction(&field);
    assert_eq!(b.direction, (1, 1));
}

#[test]
fn bottom_edge_turns_ball_up() {
    let field = Field::new(12800, 7200);
    let mut b = ball(0, -3500, 1, -1, 30);
    b.update_ball_direction(&field);
    assert_eq!(b.direction, (1, 1));
    let mut b = ball(0, -3499, 1, -1, 30);
    b.update_ball_direction(&field);
    assert_eq!(b.direction, (1, -1));
}

#[test]
fn edge_turns_ball_inward_whatever_its_heading() {
    let field = Field::new(12800, 7200);
    let mut b = ball(6400, 3600, -1, -1, 30);
    b.update_ball_direction(&field);
    assert_eq!(b.direction, (-1, -1));
    let mut b = ball(6400, -3600, 0, 0, 30);
    b.update_ball_direction(&field);
    assert_eq!(b.direction, (-1, 1));
}

#[test]
fn bounce_leaves_position_and_speed_alone() {
    let field = Field::new(12800, 7200);
    let mut b = ball(6350, 3550, 1, 1, 36);
    b.update_ball_direction(&field);
    assert_eq!(b, ball(6350, 3550, -1, -1, 36));
}

#[test]
fn odd_field_size_rounds_the_half_down() {
    let field = Field::new(12801, 7201);
    assert_eq!(field.half_width(), 6400);
    assert_eq!(field.half_height(), 3600);
    let mut b = ball(6300, 3500, 1, 1, 30);
    b.update_ball_direction(&field);
    assert_eq!(b.direction, (-1, -1));
}

#[test]
fn field_validity() {
    assert!(Field::new(12800, 7200).is_valid());
    assert!(Field { width: 1, height: 1 }.is_valid());
    assert!(Field { width: 1_000_000_000, height: 1_000_000_000 }.is_valid());
    assert!(!Field { width: 0, height: 7200 }.is_valid());
    assert!(!Field { width: 12800, height: 0 }.is_valid());
    assert!(!Field { width: -12800, height: 7200 }.is_valid());
    assert!(!Field { width: 12800, height: -1 }.is_valid());
    assert!(!Field { width: 1_000_000_001, height: 7200 }.is_valid());
    assert!(!Field { width: 12800, height: 1_000_000_001 }.is_valid());
}
