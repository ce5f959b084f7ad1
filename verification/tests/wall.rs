use arkanoid::field::Field;
use arkanoid::geometry::Vec2;
use arkanoid::wall::{
    bricks_health_check, initialize, reset, Brick, BRICK_COLUMNS, BRICK_HEALTH, BRICK_HEIGHT,
    BRICK_ROWS, BRICK_WIDTH,
};

fn brick(x: i32, y: i32, health: i32) -> Brick {
    Brick { position: Vec2 { x, y }, health }
}

#[test]
fn wall_constants() {
    assert_eq!(BRICK_WIDTH, 500);
    assert_eq!(BRICK_HEIGHT, 200);
    assert_eq!(BRICK_HEALTH, 100);
    assert_eq!(BRICK_ROWS, 5);
    assert_eq!(BRICK_COLUMNS, 19);
    assert_eq!(brick(0, 0, 100).get_brick_size(), Vec2 { x: 500, y: 200 });
}

#[test]
fn wall_has_rows_times_columns_bricks_at_full_health() {
    let bricks = initialize(&Field::new(12800, 7200));
    assert_eq!(bricks.len(), 95);
    assert!(bricks.iter().all(|b| b.health == 100));
}

#[test]
fn wall_is_laid_row_by_row_from_the_top_left() {
    let bricks = initialize(&Field::new(12800, 7200));
    // Anchor: x = -6400 + 550, y = 3600 - 400; the first row lies 350 below it.
    assert_eq!(bricks[0].position, Vec2 { x: -5850, y: 2850 });
    assert_eq!(bricks[1].position, Vec2 { x: -5200, y: 2850 });
    assert_eq!(bricks[18].position, Vec2 { x: 5850, y: 2850 });
    assert_eq!(bricks[19].position, Vec2 { x: -5850, y: 2500 });
    assert_eq!(bricks[94].position, Vec2 { x: 5850, y: 1450 });
}

#[test]
fn wall_follows_the_formula_everywhere() {
    let field = Field::new(9001, 5003);
    let bricks = initialize(&field);
    assert_eq!(bricks.len(), 95);
    for (i, b) in bricks.iter().enumerate() {
        let row = (i / 19) as i32;
        let column = (i % 19) as i32;
        assert_eq!(b.position.x, -4500 + 550 + 650 * column);
        assert_eq!(b.position.y, 2501 - 400 - 350 * (row + 1));
        assert_eq!(b.health, 100);
    }
}

#[test]
fn damage_is_taken_from_health() {
    let mut b = brick(10, 20, 100);
    b.apply_damage(30);
    assert_eq!(b, brick(10, 20, 70));
    b.apply_damage(100);
    assert_eq!(b, brick(10, 20, -30));
    b.apply_damage(0);
    assert_eq!(b, brick(10, 20, -30));
}

#[test]
fn removal_keeps_live_bricks_in_order() {
    let mut bricks = vec![
        brick(1, 0, 100),
        brick(2, 0, 0),
        brick(3, 0, 1),
        brick(4, 0, -50),
        brick(5, 0, 70),
    ];
    bricks_health_check(&mut bricks);
    assert_eq!(bricks, vec![brick(1, 0, 100), brick(3, 0, 1), brick(5, 0, 70)]);
}

#[test]
fn removal_of_nothing_changes_nothing() {
    let mut bricks = initialize(&Field::new(12800, 7200));
    let before = bricks.clone();
    bricks_health_check(&mut bricks);
    assert_eq!(bricks, before);
    let mut none: Vec<Brick> = Vec::new();
    bricks_health_check(&mut none);
    assert!(none.is_empty());
}

#[test]
fn lethal_damage_then_removal_removes_exactly_that_brick() {
    let mut bricks = initialize(&Field::new(12800, 7200));
    let victim = bricks[40];
    let mut expected = bricks.clone();
    expected.remove(40);
    bricks[40].apply_damage(100);
    assert!(bricks[40].health <= 0);
    bricks_health_check(&mut bricks);
    assert_eq!(bricks.len(), 94);
    assert_eq!(bricks, expected);
    assert!(!bricks.contains(&victim));
}

#[test]
fn second_removal_is_a_no_op() {
    let mut bricks = initialize(&Field::new(12800, 7200));
    bricks[0].apply_damage(100);
    bricks[94].apply_damage(150);
    bricks_health_check(&mut bricks);
    let once = bricks.clone();
    assert_eq!(once.len(), 93);
    bricks_health_check(&mut bricks);
    assert_eq!(bricks, once);
}

#[test]
fn removal_can_empty_the_wall() {
    let mut bricks = vec![brick(1, 0, 0), brick(2, 0, -1)];
    bricks_health_check(&mut bricks);
    assert!(bricks.is_empty());
}

#[test]
fn reset_clears_all_bricks() {
    let mut bricks = initialize(&Field::new(12800, 7200));
    bricks[3].apply_damage(100);
    reset(&mut bricks);
    assert!(bricks.is_empty());
}
