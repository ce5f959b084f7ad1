//! The wall of bricks: the grid in which it is laid out, damage, and the removal
//! of broken bricks.

use crate::field::{Field, FieldView};
use crate::geometry::{Vec2, Vector};
use vstd::prelude::*;

verus! {

/// Width of a brick in sub-units.
pub const BRICK_WIDTH: i32 = 500;

/// Height of a brick in sub-units.
pub const BRICK_HEIGHT: i32 = 200;

/// Health of a brick when it is laid.
pub const BRICK_HEALTH: i32 = 100;

/// Number of rows of the wall.
pub const BRICK_ROWS: usize = 5;

/// Number of bricks in a row.
pub const BRICK_COLUMNS: usize = 19;

/// Distance of the first column's centre from the left edge of the field.
pub const WALL_INSET_X: i32 = 550;

/// Distance of the wall's anchor from the top edge of the field. The first row lies
/// one row pitch below the anchor.
pub const WALL_INSET_Y: i32 = 400;

/// Horizontal distance between the centres of neighbouring bricks.
pub const BRICK_COLUMN_PITCH: i32 = 650;

/// Vertical distance between the centres of neighbouring rows.
pub const BRICK_ROW_PITCH: i32 = 350;

/// A brick. It stays where it was laid; it is broken once its health is zero or
/// less.
#[derive(Clone, Copy, Debug, PartialEq, Eq)]
pub struct Brick {
    pub position: Vec2,
    pub health: i32,
}

/// The mathematical value of a [`Brick`].
pub struct BrickView {
    pub position: Vector,
    pub health: int,
}

impl View for Brick {
    type V = BrickView;

    open spec fn view(&self) -> BrickView {
        BrickView { position: self.position@, health: self.health as int }
    }
}

impl BrickView {
    /// The half-extents of a brick.
    pub open spec fn half_extents() -> Vector {
        Vector { x: BRICK_WIDTH as int / 2, y: BRICK_HEIGHT as int / 2 }
    }

    /// A brick is live while its health is positive.
    pub open spec fn is_live(self) -> bool {
        self.health > 0
    }

    /// The brick after `damage` was taken from its health.
    pub open spec fn damaged(self, damage: int) -> BrickView {
        BrickView { health: self.health - damage, ..self }
    }
}

/// The bricks that a vector of bricks stands for, in the same order.
pub open spec fn bricks_view(bricks: Seq<Brick>) -> Seq<BrickView> {
    Seq::new(bricks.len(), |i: int| bricks[i]@)
}

/// The test by which the removal pass keeps a brick.
pub open spec fn live_brick() -> spec_fn(BrickView) -> bool {
    |brick: BrickView| brick.is_live()
}

/// The live bricks among `bricks`, in their order.
pub open spec fn live(bricks: Seq<BrickView>) -> Seq<BrickView> {
    bricks.filter(live_brick())
}

/// The brick laid at `row` and `column` of the wall of `field`, both counted from
/// zero, rows from the top and columns from the left.
pub open spec fn grid_brick(field: FieldView, row: int, column: int) -> BrickView {
    BrickView {
        position: Vector {
            x: -field.half_width() + WALL_INSET_X + BRICK_COLUMN_PITCH * column,
            y: field.half_height() - WALL_INSET_Y - BRICK_ROW_PITCH * (row + 1),
        },
        health: BRICK_HEALTH as int,
    }
}

/// The full wall of `field`, row by row.
pub open spec fn grid(field: FieldView) -> Seq<BrickView> {
    Seq::new(
        (BRICK_ROWS * BRICK_COLUMNS) as nat,
        |i: int| grid_brick(field, i / BRICK_COLUMNS as int, i % BRICK_COLUMNS as int),
    )
}

impl Brick {
    /// Takes `damage` from the brick's health.
    pub fn apply_damage(&mut self, damage: i32)
        requires
            i32::MIN <= old(self).health - damage <= i32::MAX,
        ensures
            final(self)@ == old(self)@.damaged(damage as int),
    {
        self.health = self.health - damage;
    }

    /// The size of every brick, width and height.
    pub fn get_brick_size(&self) -> (size: Vec2)
        ensures
            size@ == (Vector { x: BRICK_WIDTH as int, y: BRICK_HEIGHT as int }),
    {
        Vec2 { x: BRICK_WIDTH, y: BRICK_HEIGHT }
    }
}

/// Lays the full wall of `field`: every brick at its place in the grid, at full
/// health.
pub fn initialize(field: &Field) -> (bricks: Vec<Brick>)
    requires
        field@.wf(),
    ensures
        bricks_view(bricks@) == grid(field@),
{
    let first_x: i32 = -field.half_width() + WALL_INSET_X;
    let first_y: i32 = field.half_height() - WALL_INSET_Y;
    let mut bricks: Vec<Brick> = Vec::new();
    let mut row: usize = 0;
    let mut y: i32 = first_y;
    while row < BRICK_ROWS
        invariant
            field@.wf(),
            first_x == -field@.half_width() + WALL_INSET_X,
            first_y == field@.half_height() - WALL_INSET_Y,
            row <= BRICK_ROWS,
            y == first_y - BRICK_ROW_PITCH * row,
            bricks@.len() == row * BRICK_COLUMNS,
            forall|k: int|
                0 <= k < bricks@.len() ==> (#[trigger] bricks@[k])@ == grid_brick(
                    field@,
                    k / BRICK_COLUMNS as int,
                    k % BRICK_COLUMNS as int,
                ),
        decreases BRICK_ROWS - row,
    {
        y = y - BRICK_ROW_PITCH;
        let mut column: usize = 0;
        let mut x: i32 = first_x;
        while column < BRICK_COLUMNS
            invariant
                field@.wf(),
                first_x == -field@.half_width() + WALL_INSET_X,
                first_y == field@.half_height() - WALL_INSET_Y,
                row < BRICK_ROWS,
                column <= BRICK_COLUMNS,
                y == first_y - BRICK_ROW_PITCH * (row + 1),
                x == first_x + BRICK_COLUMN_PITCH * column,
                bricks@.len() == row * BRICK_COLUMNS + column,
                forall|k: int|
                    0 <= k < bricks@.len() ==> (#[trigger] bricks@[k])@ == grid_brick(
                        field@,
                        k / BRICK_COLUMNS as int,
                        k % BRICK_COLUMNS as int,
                    ),
            decreases BRICK_COLUMNS - column,
        {
            bricks.push(Brick { position: Vec2 { x, y }, health: BRICK_HEALTH });
            x = x + BRICK_COLUMN_PITCH;
            column = column + 1;
        }
        row = row + 1;
    }
    bricks
}

/// Removes every broken brick and keeps the live ones in their order.
pub fn bricks_health_check(bricks: &mut Vec<Brick>)
    ensures
        bricks_view(final(bricks)@) == live(bricks_view(old(bricks)@)),
{
    let mut kept: Vec<Brick> = Vec::new();
    let mut i: usize = 0;
    proof {
        lemma_live_empty();
    }
    while i < bricks.len()
        invariant
            i <= bricks.len(),
            bricks_view(kept@) == live(bricks_view(bricks@.take(i as int))),
        decreases bricks.len() - i,
    {
        let brick = bricks[i];
        proof {
            let before = bricks_view(bricks@.take(i as int));
            assert(bricks_view(bricks@.take(i + 1)) =~= before.push(brick@));
            before.lemma_filter_push(brick@, live_brick());
        }
        if brick.health > 0 {
            kept.push(brick);
        }
        i = i + 1;
    }
    proof {
        assert(bricks@.take(i as int) =~= bricks@);
    }
    *bricks = kept;
}

/// Removes every brick, live or broken.
pub fn reset(bricks: &mut Vec<Brick>)
    ensures
        final(bricks)@.len() == 0,
        bricks_view(final(bricks)@) == Seq::<BrickView>::empty(),
{
    bricks.clear();
}

/// No brick is live in an empty wall.
pub proof fn lemma_live_empty()
    ensures
        live(Seq::<BrickView>::empty()) == Seq::<BrickView>::empty(),
{
    reveal(Seq::filter);
}

/// The removal pass keeps a wall of live bricks as it is.
pub proof fn lemma_live_keeps_live_wall(bricks: Seq<BrickView>)
    requires
        forall|i: int| 0 <= i < bricks.len() ==> (#[trigger] bricks[i]).is_live(),
    ensures
        live(bricks) == bricks,
    decreases bricks.len(),
{
    reveal(Seq::filter);
    if bricks.len() > 0 {
        lemma_live_keeps_live_wall(bricks.drop_last());
    }
}

/// Every brick that the removal pass keeps is live, and was in the wall before.
pub proof fn lemma_live_bricks_are_live(bricks: Seq<BrickView>)
    ensures
        forall|i: int| 0 <= i < live(bricks).len() ==> (#[trigger] live(bricks)[i]).is_live(),
        forall|i: int| 0 <= i < live(bricks).len() ==> bricks.contains(#[trigger] live(bricks)[i]),
        live(bricks).len() <= bricks.len(),
    decreases bricks.len(),
{
    reveal(Seq::filter);
    if bricks.len() > 0 {
        lemma_live_bricks_are_live(bricks.drop_last());
        let rest = live(bricks.drop_last());
        assert forall|i: int| 0 <= i < live(bricks).len() implies bricks.contains(
            #[trigger] live(bricks)[i],
        ) by {
            if i < rest.len() {
                let j = choose|j: int|
                    0 <= j < bricks.drop_last().len() && bricks.drop_last()[j] == rest[i];
                assert(bricks[j] == rest[i]);
            } else {
                assert(bricks[bricks.len() - 1] == live(bricks)[i]);
            }
        }
    }
}

/// Removing broken bricks twice is the same as removing them once: the second pass
/// finds nothing to remove.
pub proof fn lemma_removal_idempotent(bricks: Seq<BrickView>)
    ensures
        live(live(bricks)) == live(bricks),
{
    lemma_live_bricks_are_live(bricks);
    lemma_live_keeps_live_wall(live(bricks));
}

/// A brick that took lethal damage is gone after the removal pass, and nothing else
/// changes: what is left is what the pass leaves of the other bricks. In a wall of
/// live bricks exactly that one brick is removed.
pub proof fn lemma_lethal_damage_removes(bricks: Seq<BrickView>, index: int, damage: int)
    requires
        0 <= index < bricks.len(),
        bricks[index].health - damage <= 0,
    ensures
        live(bricks.update(index, bricks[index].damaged(damage))) == live(bricks.remove(index)),
        (forall|i: int| 0 <= i < bricks.len() ==> (#[trigger] bricks[i]).is_live()) ==> live(
            bricks.update(index, bricks[index].damaged(damage)),
        ) == bricks.remove(index),
{
    let broken = bricks[index].damaged(damage);
    let head = bricks.take(index);
    let tail = bricks.skip(index + 1);
    assert(bricks.update(index, broken) =~= head + seq![broken] + tail);
    assert(bricks.remove(index) =~= head + tail);
    Seq::filter_distributes_over_add(head + seq![broken], tail, live_brick());
    Seq::filter_distributes_over_add(head, seq![broken], live_brick());
    Seq::filter_distributes_over_add(head, tail, live_brick());
    assert(live(seq![broken]) =~= Seq::<BrickView>::empty()) by {
        lemma_live_empty();
        Seq::<BrickView>::empty().lemma_filter_push(broken, live_brick());
    }
    if forall|i: int| 0 <= i < bricks.len() ==> (#[trigger] bricks[i]).is_live() {
        let others = bricks.remove(index);
        assert forall|i: int| 0 <= i < others.len() implies (#[trigger] others[i]).is_live() by {
            if i < index {
                assert(others[i] == bricks[i]);
            } else {
                assert(others[i] == bricks[i + 1]);
            }
        }
        lemma_live_keeps_live_wall(others);
    }
}

} // verus!
