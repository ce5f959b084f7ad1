//! Runs of ticks, and what holds of every run.

use crate::ball::BallView;
use crate::field::FieldView;
use crate::game::{GameState, BALL_INC_SPEED_FACTOR, HEALTH_START, SCORE_POINT_FACTOR};
use crate::input::Input;
use crate::player::PlayerView;
use crate::preservation::{
    lemma_grid_wf, lemma_initial_wf, lemma_simulated_steady, lemma_tick_wf,
};
use crate::rules::GameView;
use crate::wall::{grid, BRICK_COLUMNS, BRICK_HEALTH, BRICK_ROWS};
use vstd::prelude::*;

verus! {

/// The state after one tick for each of `inputs`, in their order.
pub open spec fn run(game: GameView, inputs: Seq<Input>) -> GameView
    decreases inputs.len(),
{
    if inputs.len() == 0 {
        game
    } else {
        run(game, inputs.drop_last()).tick(inputs.last())
    }
}

/// The run stays within one episode: the game is playing before the first tick and
/// after every tick.
pub open spec fn within_episode(game: GameView, inputs: Seq<Input>) -> bool {
    forall|count: int|
        0 <= count <= inputs.len() ==> (#[trigger] run(game, inputs.take(count))).state
            == GameState::Playing
}

/// The number of ticks of the run in which the ball hits the ground.
pub open spec fn ground_hits(game: GameView, inputs: Seq<Input>) -> nat
    decreases inputs.len(),
{
    if inputs.len() == 0 {
        0
    } else {
        let earlier = ground_hits(game, inputs.drop_last());
        if run(game, inputs.drop_last()).hits_ground(inputs.last()) {
            earlier + 1
        } else {
            earlier
        }
    }
}

/// Every state that a run reaches from a well-formed game is well formed.
pub proof fn lemma_run_wf(game: GameView, inputs: Seq<Input>)
    requires
        game.wf(),
    ensures
        run(game, inputs).wf(),
    decreases inputs.len(),
{
    if inputs.len() > 0 {
        lemma_run_wf(game, inputs.drop_last());
        lemma_tick_wf(run(game, inputs.drop_last()), inputs.last());
    }
}

/// The edges of the phase machine: a running game may end or pause, a finished
/// game may restart, and any phase may last.
pub open spec fn is_edge(from: GameState, to: GameState) -> bool {
    ||| from == to
    ||| from == GameState::Playing && to == GameState::GameOver
    ||| from == GameState::Playing && to == GameState::PauseMenu
    ||| from == GameState::GameOver && to == GameState::Playing
}

/// A tick changes the phase only along the edges of the phase machine. A finished
/// game restarts exactly when the controls ask for it, a running game with health
/// left pauses exactly when they do, and a paused game stays paused.
pub proof fn lemma_phase_edges(game: GameView, input: Input)
    requires
        game.wf(),
    ensures
        is_edge(game.state, game.tick(input).state),
        game.state == GameState::GameOver ==> (game.tick(input).state == GameState::Playing
            <==> input.pause_or_confirm),
        game.state == GameState::Playing ==> (game.tick(input).state == GameState::GameOver
            <==> game.simulated(input).health <= 0),
        game.state == GameState::Playing ==> (game.tick(input).state == GameState::PauseMenu
            <==> game.simulated(input).health > 0 && input.pause_or_confirm),
{
    if game.state == GameState::Playing {
        lemma_simulated_steady(game, input);
    }
}

/// The field and the ground strip never change.
pub proof fn lemma_geometry_fixed(game: GameView, inputs: Seq<Input>)
    requires
        game.wf(),
    ensures
        run(game, inputs).field == game.field,
        run(game, inputs).ground == game.ground,
    decreases inputs.len(),
{
    if inputs.len() > 0 {
        let earlier = run(game, inputs.drop_last());
        lemma_geometry_fixed(game, inputs.drop_last());
        lemma_run_wf(game, inputs.drop_last());
        if earlier.state == GameState::Playing {
            lemma_simulated_steady(earlier, inputs.last());
        }
    }
}

/// Within an episode the paddle keeps its height.
pub proof fn lemma_paddle_height_fixed(game: GameView, input: Input)
    requires
        game.wf(),
        game.state == GameState::Playing,
        game.tick(input).state == GameState::Playing,
    ensures
        game.tick(input).player.position.y == game.player.position.y,
{
    lemma_simulated_steady(game, input);
}

/// Within an episode a tick leaves the ball's speed as it was, or raises it by
/// exactly one increment when the ball hit the ground.
pub proof fn lemma_tick_speed(game: GameView, input: Input)
    requires
        game.wf(),
        game.state == GameState::Playing,
        game.tick(input).state == GameState::Playing,
    ensures
        game.tick(input).ball.speed == game.ball.speed + if game.hits_ground(input) {
            BALL_INC_SPEED_FACTOR as int
        } else {
            0
        },
        game.tick(input).ball.speed >= game.ball.speed,
{
    lemma_simulated_steady(game, input);
}

/// Within an episode a tick only ever takes bricks away: every brick left in the
/// wall was there before the tick, at the same place and with the same health,
/// and each brick that is gone has scored its points.
pub proof fn lemma_tick_wall(game: GameView, input: Input)
    requires
        game.wf(),
        game.state == GameState::Playing,
        game.tick(input).state == GameState::Playing,
    ensures
        game.tick(input).bricks.len() <= game.bricks.len(),
        forall|i: int|
            0 <= i < game.tick(input).bricks.len() ==> game.bricks.contains(
                #[trigger] game.tick(input).bricks[i],
            ),
        game.tick(input).score == game.score + SCORE_POINT_FACTOR * (game.bricks.len()
            - game.tick(input).bricks.len()),
{
    lemma_simulated_steady(game, input);
}

/// Within an episode the ball never slows down: over any run of ticks its speed
/// grows by exactly one increment for each tick in which it hit the ground.
pub proof fn lemma_speed_monotonic(game: GameView, inputs: Seq<Input>)
    requires
        game.wf(),
        within_episode(game, inputs),
    ensures
        run(game, inputs).ball.speed == game.ball.speed + BALL_INC_SPEED_FACTOR * ground_hits(
            game,
            inputs,
        ),
        run(game, inputs).ball.speed >= game.ball.speed,
    decreases inputs.len(),
{
    if inputs.len() > 0 {
        let earlier = inputs.drop_last();
        assert forall|count: int| 0 <= count <= earlier.len() implies (#[trigger] run(
            game,
            earlier.take(count),
        )).state == GameState::Playing by {
            assert(earlier.take(count) =~= inputs.take(count));
        }
        lemma_speed_monotonic(game, earlier);
        lemma_run_wf(game, earlier);
        assert(inputs =~= inputs.take(inputs.len() as int));
        lemma_tick_speed(run(game, earlier), inputs.last());
    }
}

/// Within an episode the ball is never slower after more ticks than after fewer.
pub proof fn lemma_speed_never_decreases(
    game: GameView,
    inputs: Seq<Input>,
    fewer: int,
    more: int,
)
    requires
        game.wf(),
        within_episode(game, inputs),
        0 <= fewer <= more <= inputs.len(),
    ensures
        run(game, inputs.take(fewer)).ball.speed <= run(game, inputs.take(more)).ball.speed,
    decreases more - fewer,
{
    if fewer < more {
        lemma_speed_never_decreases(game, inputs, fewer, more - 1);
        let shorter = inputs.take(more - 1);
        let longer = inputs.take(more);
        assert(longer.drop_last() =~= shorter);
        lemma_run_wf(game, shorter);
        lemma_tick_speed(run(game, shorter), longer.last());
    }
}

/// On a field at least as wide as the paddle, the paddle of a well-formed game
/// lies within the field, and so it does after every run of ticks.
pub proof fn lemma_paddle_contained(game: GameView, inputs: Seq<Input>)
    requires
        game.wf(),
        game.field.half_width() >= PlayerView::half_extents().x,
    ensures
        run(game, inputs).player.contained(game.field),
{
    lemma_geometry_fixed(game, inputs);
    lemma_run_wf(game, inputs);
}

/// From the start of a game on, whatever the controls do, the paddle stays within
/// a field that is at least as wide as the paddle.
pub proof fn lemma_paddle_always_contained(field: FieldView, inputs: Seq<Input>)
    requires
        field.wf(),
        field.half_width() >= PlayerView::half_extents().x,
    ensures
        run(GameView::initial(field), inputs).player.contained(field),
{
    lemma_initial_wf(field);
    lemma_paddle_contained(GameView::initial(field), inputs);
}

/// Restarting a finished game resets it completely: no points, full health, ball
/// and paddle as they are served, and the full wall with every brick at full
/// health. Both notices are raised.
pub proof fn lemma_restart_resets(game: GameView, input: Input)
    requires
        game.wf(),
        game.state == GameState::GameOver,
        input.pause_or_confirm,
    ensures
        game.tick(input).state == GameState::Playing,
        game.tick(input).score == 0,
        game.tick(input).health == HEALTH_START,
        game.tick(input).ball == BallView::spawn(),
        game.tick(input).player == PlayerView::spawn(game.field),
        game.tick(input).bricks == grid(game.field),
        game.tick(input).bricks.len() == BRICK_ROWS * BRICK_COLUMNS,
        forall|i: int|
            0 <= i < game.tick(input).bricks.len() ==> (#[trigger] game.tick(input).bricks[i]).health
                == BRICK_HEALTH,
        game.tick(input).score_updated,
        game.tick(input).health_updated,
{
    lemma_grid_wf(game.field);
}

} // verus!
