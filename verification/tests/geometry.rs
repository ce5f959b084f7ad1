use arkanoid::geometry::{test_aabb_overlap, Collision, Vec2};

fn v(x: i32, y: i32) -> Vec2 {
    Vec2 { x, y }
}

fn mirrored(outcome: Option<Collision>) -> Option<Collision> {
    match outcome {
        None => None,
        Some(Collision::Left) => Some(Collision::Right),
        Some(Collision::Right) => Some(Collision::Left),
        Some(Collision::Top) => Some(Collision::Bottom),
        Some(Collision::Bottom) => Some(Collision::Top),
        Some(Collision::Inside) => Some(Collision::Inside),
    }
}

#[test]
fn second_box_on_the_right_reports_right() {
    let outcome = test_aabb_overlap(v(0, 0), v(100, 100), v(150, 10), v(100, 100));
    assert_eq!(outcome, Some(Collision::Right));
}

#[test]
fn second_box_on_the_left_reports_left() {
    let outcome = test_aabb_overlap(v(0, 0), v(100, 100), v(-150, 10), v(100, 100));
    assert_eq!(outcome, Some(Collision::Left));
}

#[test]
fn second_box_above_reports_top() {
    let outcome = test_aabb_overlap(v(0, 0), v(100, 100), v(10, 150), v(100, 100));
    assert_eq!(outcome, Some(Collision::Top));
}

#[test]
fn second_box_below_reports_bottom() {
    let outcome = test_aabb_overlap(v(0, 0), v(100, 100), v(10, -150), v(100, 100));
    assert_eq!(outcome, Some(Collision::Bottom));
}

#[test]
fn coinciding_centres_report_inside() {
    let outcome = test_aabb_overlap(v(7, -3), v(100, 100), v(7, -3), v(10, 10));
    assert_eq!(outcome, Some(Collision::Inside));
}

#[test]
fn inside_needs_both_ratios_below_one_millionth() {
    // Combined half-extents of 2_000_000 on both axes: an offset of 1 is a ratio
    // of one part in two million, an offset of 2 is exactly one millionth.
    let half = v(1_000_000, 1_000_000);
    assert_eq!(test_aabb_overlap(v(0, 0), half, v(1, 1), half), Some(Collision::Inside));
    assert_eq!(test_aabb_overlap(v(0, 0), half, v(2, 1), half), Some(Collision::Right));
    assert_eq!(test_aabb_overlap(v(0, 0), half, v(1, 2), half), Some(Collision::Top));
    assert_eq!(test_aabb_overlap(v(0, 0), half, v(1, -2), half), Some(Collision::Bottom));
}

#[test]
fn equal_ratios_resolve_to_the_vertical_axis() {
    assert_eq!(
        test_aabb_overlap(v(0, 0), v(100, 100), v(50, 50), v(100, 100)),
        Some(Collision::Top)
    );
    assert_eq!(
        test_aabb_overlap(v(0, 0), v(100, 100), v(-50, -50), v(100, 100)),
        Some(Collision::Bottom)
    );
    // Ratios 30/300 and 10/100 are equal though the offsets differ.
    assert_eq!(
        test_aabb_overlap(v(0, 0), v(200, 50), v(30, 10), v(100, 50)),
        Some(Collision::Top)
    );
}

#[test]
fn ratios_not_offsets_decide_the_axis() {
    // Offsets 40 and 30, but ratios 40/400 = 0.1 and 30/150 = 0.2.
    assert_eq!(
        test_aabb_overlap(v(0, 0), v(300, 50), v(40, 30), v(100, 100)),
        Some(Collision::Top)
    );
    // Offsets 30 and 40, but ratios 30/150 = 0.2 and 40/400 = 0.1.
    assert_eq!(
        test_aabb_overlap(v(0, 0), v(50, 300), v(-30, 40), v(100, 100)),
        Some(Collision::Left)
    );
}

#[test]
fn touching_boxes_do_not_overlap() {
    // delta.x == half_a.x + half_b.x exactly.
    assert_eq!(test_aabb_overlap(v(0, 0), v(100, 100), v(350, 0), v(250, 100)), None);
    assert_eq!(test_aabb_overlap(v(0, 0), v(100, 100), v(-350, 0), v(250, 100)), None);
    assert_eq!(test_aabb_overlap(v(0, 0), v(100, 100), v(0, 200), v(250, 100)), None);
    assert_eq!(test_aabb_overlap(v(0, 0), v(100, 100), v(0, -200), v(250, 100)), None);
    // One sub-unit closer and they overlap.
    assert_eq!(
        test_aabb_overlap(v(0, 0), v(100, 100), v(349, 0), v(250, 100)),
        Some(Collision::Right)
    );
}

#[test]
fn distant_boxes_do_not_overlap() {
    assert_eq!(test_aabb_overlap(v(0, 0), v(100, 100), v(1000, 0), v(100, 100)), None);
    assert_eq!(test_aabb_overlap(v(0, 0), v(100, 100), v(0, 1000), v(100, 100)), None);
    // Overlap on one axis alone is no overlap.
    assert_eq!(test_aabb_overlap(v(0, 0), v(100, 100), v(50, 1000), v(100, 100)), None);
}

#[test]
fn boxes_without_extent_overlap_nothing() {
    assert_eq!(test_aabb_overlap(v(0, 0), v(0, 0), v(0, 0), v(0, 0)), None);
    assert_eq!(test_aabb_overlap(v(0, 0), v(-5, 10), v(0, 0), v(-5, 10)), None);
    assert_eq!(test_aabb_overlap(v(0, 0), v(10, -5), v(0, 0), v(10, -5)), None);
}

#[test]
fn extreme_coordinates_are_handled() {
    let far = i32::MAX;
    let near = i32::MIN;
    assert_eq!(test_aabb_overlap(v(near, near), v(far, far), v(far, far), v(far, far)), None);
    assert_eq!(
        test_aabb_overlap(v(near, 0), v(far, far), v(far - 2, 0), v(far, far)),
        Some(Collision::Right)
    );
    assert_eq!(
        test_aabb_overlap(v(far, far), v(far, far), v(far, near + 3), v(far, far)),
        Some(Collision::Bottom)
    );
    assert_eq!(test_aabb_overlap(v(far, far), v(far, far), v(far, far), v(far, far)), Some(Collision::Inside));
}

#[test]
fn swapping_the_boxes_mirrors_the_outcome() {
    let centres = [-400, -349, -120, -1, 0, 1, 77, 120, 349, 350, 400];
    let a_half = v(100, 100);
    let b_half = v(250, 100);
    for &x in centres.iter() {
        for &y in centres.iter() {
            let forth = test_aabb_overlap(v(10, -20), a_half, v(x, y), b_half);
            let back = test_aabb_overlap(v(x, y), b_half, v(10, -20), a_half);
            assert_eq!(back, mirrored(forth));
            assert_eq!(back.is_some(), forth.is_some());
        }
    }
}
