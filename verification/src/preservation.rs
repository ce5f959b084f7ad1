//! Proof that every tick keeps a game well formed, whatever the input.

use crate::ball::BALL_INIT_SPEED;
use crate::field::FieldView;
use crate::game::{
    GameState, GroundView, BALL_INC_SPEED_FACTOR, HEALTH_PENALTY, HEALTH_START,
    SCORE_POINT_FACTOR,
};
use crate::input::Input;
use crate::rules::{ball_guarded, brick_wf, in_reach, player_wf, GameView};
use crate::wall::{
    grid, lemma_live_bricks_are_live, live, live_brick, BRICK_COLUMNS, BRICK_HEALTH, BRICK_ROWS,
};
use vstd::prelude::*;

verus! {

/// What holds of a running game at every point within a tick: all of
/// [`GameView::wf`] but the bounds on the health, the liveness of the bricks and
/// the room left for the score.
pub open spec fn steady(state: GameView) -> bool {
    &&& state.field.wf()
    &&& state.state == GameState::Playing
    &&& state.ground == GroundView::spawn(state.field)
    &&& state.ball.wf()
    &&& player_wf(state.player, state.field)
    &&& ball_guarded(state.ball, state.field)
    &&& HEALTH_PENALTY * (state.ball.speed - BALL_INIT_SPEED) == BALL_INC_SPEED_FACTOR
        * (HEALTH_START - state.health)
    &&& forall|i: int|
        0 <= i < state.bricks.len() ==> {
            &&& in_reach((#[trigger] state.bricks[i]).position, state.field)
            &&& state.bricks[i].health <= BRICK_HEALTH
        }
}

/// The full wall of a valid field is made of live bricks at full health, all in
/// reach of the field.
pub proof fn lemma_grid_wf(field: FieldView)
    requires
        field.wf(),
    ensures
        grid(field).len() == BRICK_ROWS * BRICK_COLUMNS,
        forall|i: int| 0 <= i < grid(field).len() ==> brick_wf(#[trigger] grid(field)[i], field),
        forall|i: int|
            0 <= i < grid(field).len() ==> (#[trigger] grid(field)[i]).health == BRICK_HEALTH,
{
}

/// A game starts well formed.
pub proof fn lemma_initial_wf(field: FieldView)
    requires
        field.wf(),
    ensures
        GameView::initial(field).wf(),
{
    lemma_grid_wf(field);
}

/// Kinematics keep a running game steady and touch neither the counters nor the
/// wall.
pub proof fn lemma_kinematics_steady(game: GameView, input: Input)
    requires
        game.wf(),
        game.state == GameState::Playing,
    ensures
        steady(game.after_kinematics(input)),
        game.after_kinematics(input).bricks == game.bricks,
        game.after_kinematics(input).score == game.score,
        game.after_kinematics(input).health == game.health,
        game.after_kinematics(input).ball.speed == game.ball.speed,
{
}

/// The ground test keeps a game steady and takes at most one penalty.
pub proof fn lemma_ground_steady(state: GameView)
    requires
        steady(state),
    ensures
        steady(state.after_ground()),
        state.after_ground().bricks == state.bricks,
        state.after_ground().score == state.score,
        state.health - HEALTH_PENALTY <= state.after_ground().health <= state.health,
{
}

/// The brick tests keep a game steady and leave the ball where it is. A brick not
/// yet tested is as it was; a tested brick is as it was or broken. Every hit
/// scores the worth of the brick it breaks: after `count` tests, the score plus the
/// worth of the live bricks among those tested and of the bricks not yet tested is
/// what the score plus the worth of the whole wall was before.
pub proof fn lemma_bricks_steady(state: GameView, count: nat)
    requires
        steady(state),
        count <= state.bricks.len(),
        forall|i: int| 0 <= i < state.bricks.len() ==> (#[trigger] state.bricks[i]).is_live(),
    ensures
        steady(state.after_bricks_upto(count)),
        state.after_bricks_upto(count).field == state.field,
        state.after_bricks_upto(count).player == state.player,
        state.after_bricks_upto(count).ball.position == state.ball.position,
        state.after_bricks_upto(count).ball.speed == state.ball.speed,
        state.after_bricks_upto(count).health == state.health,
        state.after_bricks_upto(count).bricks.len() == state.bricks.len(),
        forall|i: int|
            count <= i < state.bricks.len() ==> (#[trigger] state.after_bricks_upto(
                count,
            ).bricks[i]) == state.bricks[i],
        forall|i: int|
            0 <= i < count ==> (#[trigger] state.after_bricks_upto(count).bricks[i])
                == state.bricks[i] || !state.after_bricks_upto(count).bricks[i].is_live(),
        state.after_bricks_upto(count).score + SCORE_POINT_FACTOR * live(
            state.after_bricks_upto(count).bricks.take(count as int),
        ).len() + SCORE_POINT_FACTOR * (state.bricks.len() - count) == state.score
            + SCORE_POINT_FACTOR * state.bricks.len(),
    decreases count,
{
    if count == 0 {
        crate::wall::lemma_live_empty();
    } else {
        let index = count - 1;
        lemma_bricks_steady(state, index as nat);
        let before = state.after_bricks_upto(index as nat);
        let after = before.after_brick(index);
        assert(after.bricks.take(index) =~= before.bricks.take(index));
        assert(after.bricks.take(count as int) =~= after.bricks.take(index).push(
            after.bricks[index],
        ));
        after.bricks.take(index).lemma_filter_push(after.bricks[index], live_brick());
    }
}

/// The paddle test keeps a game steady and touches neither the counters nor the
/// wall.
pub proof fn lemma_paddle_steady(state: GameView)
    requires
        steady(state),
    ensures
        steady(state.after_paddle()),
        state.after_paddle().bricks == state.bricks,
        state.after_paddle().score == state.score,
        state.after_paddle().health == state.health,
{
}

/// A step of a running episode leaves a game that is well formed but for the
/// health, which may be used up. The ball has sped up by one increment if it hit
/// the ground and not at all otherwise, and the health has paid for it. The paddle
/// has kept its height. Every brick left in the wall was there before, unchanged,
/// and the score has grown by the worth of the bricks that are gone.
pub proof fn lemma_simulated_steady(game: GameView, input: Input)
    requires
        game.wf(),
        game.state == GameState::Playing,
    ensures
        steady(game.simulated(input)),
        game.simulated(input).field == game.field,
        game.simulated(input).ball.speed == game.ball.speed + if game.hits_ground(input) {
            BALL_INC_SPEED_FACTOR as int
        } else {
            0
        },
        game.simulated(input).health == game.health - if game.hits_ground(input) {
            HEALTH_PENALTY as int
        } else {
            0
        },
        game.simulated(input).player.position.y == game.player.position.y,
        game.simulated(input).score + SCORE_POINT_FACTOR * game.simulated(input).bricks.len()
            == game.score + SCORE_POINT_FACTOR * game.bricks.len(),
        game.simulated(input).bricks.len() <= game.bricks.len(),
        forall|i: int|
            0 <= i < game.simulated(input).bricks.len() ==> game.bricks.contains(
                #[trigger] game.simulated(input).bricks[i],
            ),
        forall|i: int|
            0 <= i < game.simulated(input).bricks.len() ==> brick_wf(
                #[trigger] game.simulated(input).bricks[i],
                game.field,
            ),
{
    let moved = game.after_kinematics(input);
    lemma_kinematics_steady(game, input);
    let grounded = moved.after_ground();
    lemma_ground_steady(moved);
    let tested = grounded.after_bricks();
    lemma_bricks_steady(grounded, grounded.bricks.len());
    assert(tested.bricks.take(tested.bricks.len() as int) =~= tested.bricks);
    let deflected = tested.after_paddle();
    lemma_paddle_steady(tested);
    let swept = deflected.after_removal();
    lemma_live_bricks_are_live(deflected.bricks);
    assert forall|i: int| 0 <= i < swept.bricks.len() implies game.bricks.contains(
        #[trigger] swept.bricks[i],
    ) && brick_wf(swept.bricks[i], game.field) by {
        // A brick that the removal pass kept is live, so the brick tests left it
        // as it was in the wall before the tick.
        let j = choose|j: int|
            0 <= j < deflected.bricks.len() && deflected.bricks[j] == swept.bricks[i];
        assert(swept.bricks[i] == game.bricks[j]);
    }
}

/// A tick keeps a game well formed, whatever the input.
pub proof fn lemma_tick_wf(game: GameView, input: Input)
    requires
        game.wf(),
    ensures
        game.tick(input).wf(),
{
    lemma_grid_wf(game.field);
    if game.state == GameState::Playing {
        lemma_simulated_steady(game, input);
    }
}

} // verus!
