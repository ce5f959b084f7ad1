//! Axis-aligned boxes: overlap test and classification of the struck side.

use vstd::prelude::*;

verus! {

/// Number of sub-units in one length unit. All coordinates, extents and speeds of
/// the crate are integers counted in sub-units.
pub const UNIT: i32 = 10;

/// Two overlapping boxes whose centres are closer than one part in this many of the
/// combined half-extents, on both axes, count as one lying inside the other.
pub const INSIDE_RATIO_DIVISOR: i64 = 1_000_000;

/// A point or an extent in sub-units.
#[derive(Clone, Copy, Debug, PartialEq, Eq)]
pub struct Vec2 {
    pub x: i32,
    pub y: i32,
}

/// The mathematical vector that a [`Vec2`] stands for.
pub struct Vector {
    pub x: int,
    pub y: int,
}

impl View for Vec2 {
    type V = Vector;

    open spec fn view(&self) -> Vector {
        Vector { x: self.x as int, y: self.y as int }
    }
}

/// The side of the first box that the second box struck, or `Inside` when the
/// centres (almost) coincide.
#[derive(Clone, Copy, Debug, PartialEq, Eq)]
pub enum Collision {
    Left,
    Right,
    Top,
    Bottom,
    Inside,
}

/// Absolute value of an integer.
pub open spec fn magnitude(v: int) -> int {
    if v < 0 {
        -v
    } else {
        v
    }
}

/// Whether two boxes, each given by centre and half-extents, overlap. Boxes that
/// merely touch do not: the boundary is open.
pub open spec fn overlaps(
    center_a: Vector,
    half_extents_a: Vector,
    center_b: Vector,
    half_extents_b: Vector,
) -> bool {
    &&& magnitude(center_b.x - center_a.x) < half_extents_a.x + half_extents_b.x
    &&& magnitude(center_b.y - center_a.y) < half_extents_a.y + half_extents_b.y
}

/// Outcome of the overlap test of box A against box B.
///
/// With `delta = center_b - center_a` and `sum = half_extents_a + half_extents_b`,
/// the penetration ratio on an axis is `|delta| / sum`. The struck side lies on the
/// axis with the larger ratio, the vertical axis on a tie; ratios are compared
/// exactly, by cross-multiplication, which is sound because both sums are positive
/// once the boxes overlap.
pub open spec fn overlap_outcome(
    center_a: Vector,
    half_extents_a: Vector,
    center_b: Vector,
    half_extents_b: Vector,
) -> Option<Collision> {
    let dx = center_b.x - center_a.x;
    let dy = center_b.y - center_a.y;
    let sum_x = half_extents_a.x + half_extents_b.x;
    let sum_y = half_extents_a.y + half_extents_b.y;
    if magnitude(dx) >= sum_x || magnitude(dy) >= sum_y {
        None
    } else if magnitude(dx) * INSIDE_RATIO_DIVISOR < sum_x && magnitude(dy) * INSIDE_RATIO_DIVISOR
        < sum_y {
        Some(Collision::Inside)
    } else if magnitude(dx) * sum_y > magnitude(dy) * sum_x {
        if dx < 0 {
            Some(Collision::Left)
        } else {
            Some(Collision::Right)
        }
    } else {
        if dy < 0 {
            Some(Collision::Bottom)
        } else {
            Some(Collision::Top)
        }
    }
}

/// The same contact seen from the other box: left and right swap, top and bottom
/// swap.
pub open spec fn mirrored(outcome: Option<Collision>) -> Option<Collision> {
    match outcome {
        None => None,
        Some(Collision::Left) => Some(Collision::Right),
        Some(Collision::Right) => Some(Collision::Left),
        Some(Collision::Top) => Some(Collision::Bottom),
        Some(Collision::Bottom) => Some(Collision::Top),
        Some(Collision::Inside) => Some(Collision::Inside),
    }
}

/// Tests box A against box B and names the side of A on which B lies.
///
/// The function is total: boxes with non-positive extents overlap nothing.
pub fn test_aabb_overlap(
    center_a: Vec2,
    half_extents_a: Vec2,
    center_b: Vec2,
    half_extents_b: Vec2,
) -> (outcome: Option<Collision>)
    ensures
        outcome == overlap_outcome(center_a@, half_extents_a@, center_b@, half_extents_b@),
        outcome.is_some() == overlaps(center_a@, half_extents_a@, center_b@, half_extents_b@),
{
    let dx: i64 = center_b.x as i64 - center_a.x as i64;
    let dy: i64 = center_b.y as i64 - center_a.y as i64;
    let sum_x: i64 = half_extents_a.x as i64 + half_extents_b.x as i64;
    let sum_y: i64 = half_extents_a.y as i64 + half_extents_b.y as i64;
    let abs_dx: i64 = if dx < 0 { -dx } else { dx };
    let abs_dy: i64 = if dy < 0 { -dy } else { dy };
    if abs_dx >= sum_x || abs_dy >= sum_y {
        return None;
    }
    if abs_dx * INSIDE_RATIO_DIVISOR < sum_x && abs_dy * INSIDE_RATIO_DIVISOR < sum_y {
        return Some(Collision::Inside);
    }
    // Offsets and sums are below 2^32 here, so the products fit in 128 bits.
    assert(0 <= abs_dx * sum_y <= 0x1_0000_0000 * 0x1_0000_0000) by (nonlinear_arith)
        requires
            0 <= abs_dx <= 0x1_0000_0000,
            0 <= sum_y <= 0x1_0000_0000,
    ;
    assert(0 <= abs_dy * sum_x <= 0x1_0000_0000 * 0x1_0000_0000) by (nonlinear_arith)
        requires
            0 <= abs_dy <= 0x1_0000_0000,
            0 <= sum_x <= 0x1_0000_0000,
    ;
    let ratio_x: i128 = abs_dx as i128 * sum_y as i128;
    let ratio_y: i128 = abs_dy as i128 * sum_x as i128;
    if ratio_x > ratio_y {
        if dx < 0 {
            Some(Collision::Left)
        } else {
            Some(Collision::Right)
        }
    } else {
        if dy < 0 {
            Some(Collision::Bottom)
        } else {
            Some(Collision::Top)
        }
    }
}

/// Overlap is symmetric, and swapping the two boxes mirrors the reported side.
pub proof fn lemma_overlap_symmetric(
    center_a: Vector,
    half_extents_a: Vector,
    center_b: Vector,
    half_extents_b: Vector,
)
    ensures
        overlaps(center_b, half_extents_b, center_a, half_extents_a) == overlaps(
            center_a,
            half_extents_a,
            center_b,
            half_extents_b,
        ),
        overlap_outcome(center_b, half_extents_b, center_a, half_extents_a) == mirrored(
            overlap_outcome(center_a, half_extents_a, center_b, half_extents_b),
        ),
{
    let dx = center_b.x - center_a.x;
    let dy = center_b.y - center_a.y;
    let sum_x = half_extents_a.x + half_extents_b.x;
    let sum_y = half_extents_a.y + half_extents_b.y;
    // Seen from B the offsets change sign; their magnitudes, and with them both
    // ratios, stay as they are.
    // An offset of zero on the axis that decides would make both ratios zero, and
    // the outcome `Inside`: the sign of the deciding offset is never in doubt.
    lemma_product_sign(magnitude(dx), sum_y);
    lemma_product_sign(magnitude(dy), sum_x);
}

/// The sign of the product of a magnitude and a sum of half-extents.
proof fn lemma_product_sign(offset: int, sum: int)
    requires
        0 <= offset,
    ensures
        offset == 0 ==> offset * sum == 0,
        0 <= sum ==> 0 <= offset * sum,
        0 < offset && 0 < sum ==> 0 < offset * sum,
{
    assert(offset == 0 ==> offset * sum == 0) by (nonlinear_arith);
    assert(0 <= sum ==> 0 <= offset * sum) by (nonlinear_arith)
        requires
            0 <= offset,
    ;
    assert(0 < offset && 0 < sum ==> 0 < offset * sum) by (nonlinear_arith);
}

/// Boxes whose centres are at least the sum of the half-extents apart on some axis
/// do not overlap; in particular boxes that exactly touch report nothing.
pub proof fn lemma_touching_is_no_overlap(
    center_a: Vector,
    half_extents_a: Vector,
    center_b: Vector,
    half_extents_b: Vector,
)
    requires
        magnitude(center_b.x - center_a.x) >= half_extents_a.x + half_extents_b.x || magnitude(
            center_b.y - center_a.y,
        ) >= half_extents_a.y + half_extents_b.y,
    ensures
        overlap_outcome(center_a, half_extents_a, center_b, half_extents_b) is None,
        !overlaps(center_a, half_extents_a, center_b, half_extents_b),
{
}

} // verus!
