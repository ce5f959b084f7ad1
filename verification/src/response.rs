//! What the brick tests of a tick do to the wall, brick by brick.

use crate::game::{LETHAL_DAMAGE, SCORE_POINT_FACTOR};
use crate::rules::GameView;
use crate::wall::{lemma_live_bricks_are_live, BrickView};
use vstd::prelude::*;

verus! {

/// The number of bricks among the first `count` that the ball overlaps.
pub open spec fn bricks_hit(state: GameView, count: nat) -> nat
    decreases count,
{
    if count == 0 {
        0
    } else if state.brick_outcome(count - 1) is Some {
        bricks_hit(state, (count - 1) as nat) + 1
    } else {
        bricks_hit(state, (count - 1) as nat)
    }
}

/// The brick tests treat every brick on its own: a brick that the ball overlaps
/// takes lethal damage, any other stays as it is, and the order in which the
/// bricks are tested matters to the ball's heading alone. The score grows by the
/// reward for each brick hit; the ball stays where it is and as fast as it is.
pub proof fn lemma_brick_pass(state: GameView, count: nat)
    requires
        count <= state.bricks.len(),
    ensures
        state.after_bricks_upto(count).bricks.len() == state.bricks.len(),
        forall|i: int|
            0 <= i < count ==> (#[trigger] state.after_bricks_upto(count).bricks[i]) == if state.brick_outcome(
                i,
            ) is Some {
                state.bricks[i].damaged(LETHAL_DAMAGE as int)
            } else {
                state.bricks[i]
            },
        forall|i: int|
            count <= i < state.bricks.len() ==> (#[trigger] state.after_bricks_upto(
                count,
            ).bricks[i]) == state.bricks[i],
        state.after_bricks_upto(count).score == state.score + SCORE_POINT_FACTOR * bricks_hit(
            state,
            count,
        ),
        state.after_bricks_upto(count).ball.position == state.ball.position,
        state.after_bricks_upto(count).ball.speed == state.ball.speed,
        state.after_bricks_upto(count).health == state.health,
        state.after_bricks_upto(count).player == state.player,
        state.after_bricks_upto(count).state == state.state,
    decreases count,
{
    if count > 0 {
        let index = count - 1;
        lemma_brick_pass(state, index as nat);
        let before = state.after_bricks_upto(index as nat);
    }
}

/// A brick at no more than full health that the ball overlaps is broken by the
/// brick tests, scores at least its reward, and is gone after the removal pass:
/// no brick that the pass leaves is broken.
pub proof fn lemma_hit_brick_removed(state: GameView, index: int)
    requires
        0 <= index < state.bricks.len(),
        state.brick_outcome(index) is Some,
        state.bricks[index].health <= LETHAL_DAMAGE,
    ensures
        state.after_bricks().bricks[index].health <= 0,
        state.after_bricks().score >= state.score + SCORE_POINT_FACTOR,
        forall|i: int|
            0 <= i < state.after_bricks().after_removal().bricks.len() ==> (
            #[trigger] state.after_bricks().after_removal().bricks[i]).is_live(),
        state.after_bricks().after_removal().bricks.len() < state.bricks.len(),
{
    let count = state.bricks.len();
    lemma_brick_pass(state, count);
    lemma_bricks_hit_counts(state, count, index);
    let tested = state.after_bricks().bricks;
    lemma_live_bricks_are_live(tested);
    lemma_broken_brick_shrinks_wall(tested, index);
}

/// A brick that the ball overlaps is counted among the bricks hit.
proof fn lemma_bricks_hit_counts(state: GameView, count: nat, index: int)
    requires
        0 <= index < count,
        state.brick_outcome(index) is Some,
    ensures
        bricks_hit(state, count) >= 1,
    decreases count,
{
    if index < count - 1 {
        lemma_bricks_hit_counts(state, (count - 1) as nat, index);
    }
}

/// A wall with a broken brick in it is shorter after the removal pass.
proof fn lemma_broken_brick_shrinks_wall(bricks: Seq<BrickView>, index: int)
    requires
        0 <= index < bricks.len(),
        !bricks[index].is_live(),
    ensures
        crate::wall::live(bricks).len() < bricks.len(),
    decreases bricks.len(),
{
    reveal(Seq::filter);
    let rest = bricks.drop_last();
    rest.lemma_filter_len(crate::wall::live_brick());
    if index < bricks.len() - 1 {
        lemma_broken_brick_shrinks_wall(rest, index);
    }
}

} // verus!
