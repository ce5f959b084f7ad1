//! The rules of the game, stated over the mathematical value of its state: what
//! each step of a tick does, what a tick as a whole does, and what holds of a game
//! between ticks.

use crate::ball::{BallView, BALL_INIT_SPEED};
use crate::field::FieldView;
use crate::game::{
    GameState, GroundView, BALL_INC_SPEED_FACTOR, BALL_MARGIN, BALL_MAX_SPEED, HEALTH_PENALTY,
    HEALTH_START, LETHAL_DAMAGE, OBJECT_MARGIN, SCORE_POINT_FACTOR,
};
use crate::geometry::{overlap_outcome, Collision, Vector};
use crate::input::Input;
use crate::player::PlayerView;
use crate::wall::{grid, live, BrickView, BRICK_HEALTH};
use vstd::prelude::*;

verus! {

/// The mathematical value of a [`crate::game::Game`].
pub struct GameView {
    pub field: FieldView,
    pub state: GameState,
    pub ball: BallView,
    pub player: PlayerView,
    pub bricks: Seq<BrickView>,
    pub ground: GroundView,
    pub score: int,
    pub health: int,
    pub score_updated: bool,
    pub health_updated: bool,
}

/// The heading of a ball that struck a brick on `side`: away from the brick.
/// The brick is the first box of the test and the ball the second.
pub open spec fn deflected_by_brick(ball: BallView, side: Collision) -> BallView {
    match side {
        Collision::Left => BallView { direction: (-1, ball.direction.1), ..ball },
        Collision::Right => BallView { direction: (1, ball.direction.1), ..ball },
        Collision::Top => BallView { direction: (ball.direction.0, 1), ..ball },
        Collision::Bottom => BallView { direction: (ball.direction.0, -1), ..ball },
        Collision::Inside => ball,
    }
}

/// The heading of a ball on whose `side` the paddle lies: away from the paddle.
/// The ball is the first box of the test and the paddle the second, so the senses
/// are those of [`deflected_by_brick`] inverted.
pub open spec fn deflected_by_paddle(ball: BallView, side: Collision) -> BallView {
    match side {
        Collision::Top => BallView { direction: (ball.direction.0, -1), ..ball },
        Collision::Bottom => BallView { direction: (ball.direction.0, 1), ..ball },
        Collision::Left => BallView { direction: (1, ball.direction.1), ..ball },
        Collision::Right => BallView { direction: (-1, ball.direction.1), ..ball },
        Collision::Inside => ball,
    }
}

/// Along one axis the ball is no further than `reach` plus one tick's travel from
/// the centre, and at or beyond `reach` it does not head outward.
pub open spec fn axis_guarded(coordinate: int, heading: int, reach: int) -> bool {
    &&& -reach - BALL_MAX_SPEED <= coordinate <= reach + BALL_MAX_SPEED
    &&& coordinate >= reach ==> heading <= 0
    &&& coordinate <= -reach ==> heading >= 0
}

/// The ball stays about the field: guarded on both axes, with [`BALL_MARGIN`]
/// beyond the edges as the reach.
pub open spec fn ball_guarded(ball: BallView, field: FieldView) -> bool {
    &&& axis_guarded(ball.position.x, ball.direction.0, field.half_width() + BALL_MARGIN)
    &&& axis_guarded(ball.position.y, ball.direction.1, field.half_height() + BALL_MARGIN)
}

/// The centre of an object lies no further than [`OBJECT_MARGIN`] beyond the edges
/// of the field.
pub open spec fn in_reach(position: Vector, field: FieldView) -> bool {
    &&& -field.half_width() - OBJECT_MARGIN <= position.x <= field.half_width() + OBJECT_MARGIN
    &&& -field.half_height() - OBJECT_MARGIN <= position.y <= field.half_height() + OBJECT_MARGIN
}

/// A brick of a wall between ticks: in reach of the field, live, and at no more
/// than full health.
pub open spec fn brick_wf(brick: BrickView, field: FieldView) -> bool {
    &&& in_reach(brick.position, field)
    &&& 0 < brick.health <= BRICK_HEALTH
}

/// The paddle is in reach of the field and, sideways, no further from the centre
/// than the clamp leaves it. On a field at least as wide as the paddle that means
/// that the paddle is contained in the field.
pub open spec fn player_wf(player: PlayerView, field: FieldView) -> bool {
    let slack = field.half_width() - PlayerView::half_extents().x;
    &&& in_reach(player.position, field)
    &&& if slack >= 0 {
        -slack <= player.position.x <= slack
    } else {
        slack <= player.position.x <= -slack
    }
}

impl GameView {
    /// The state in which a game on `field` starts: the first episode has just
    /// begun, and both notices are raised so that the counters get shown.
    pub open spec fn initial(field: FieldView) -> GameView {
        GameView {
            field,
            state: GameState::Playing,
            ball: BallView::spawn(),
            player: PlayerView::spawn(field),
            bricks: grid(field),
            ground: GroundView::spawn(field),
            score: 0,
            health: HEALTH_START as int,
            score_updated: true,
            health_updated: true,
        }
    }

    /// What holds of a game between ticks.
    ///
    /// Throughout: the field is valid and the ground is its ground strip; the
    /// ball has a heading and its speed is not below the initial speed; the paddle
    /// is where the clamp leaves it; every brick is live and in reach; and the
    /// score leaves room for the points that the wall still holds.
    ///
    /// While playing: the health lies between zero and its starting value, the
    /// ball has gained one increment of speed for each penalty taken from the
    /// health, and the ball stays about the field. Otherwise: the wall is empty and
    /// the health is at its starting value.
    pub open spec fn wf(self) -> bool {
        &&& self.field.wf()
        &&& self.ground == GroundView::spawn(self.field)
        &&& self.ball.wf()
        &&& player_wf(self.player, self.field)
        &&& forall|i: int|
            0 <= i < self.bricks.len() ==> brick_wf(#[trigger] self.bricks[i], self.field)
        &&& self.score + SCORE_POINT_FACTOR * self.bricks.len() <= i32::MAX
        &&& match self.state {
            GameState::Playing => {
                &&& 0 <= self.health <= HEALTH_START
                &&& HEALTH_PENALTY * (self.ball.speed - BALL_INIT_SPEED) == BALL_INC_SPEED_FACTOR
                    * (HEALTH_START - self.health)
                &&& ball_guarded(self.ball, self.field)
            },
            _ => {
                &&& self.health == HEALTH_START
                &&& self.bricks.len() == 0
            },
        }
    }

    /// The state after the ball moved and bounced off the edges, and the paddle
    /// was steered, moved and clamped.
    pub open spec fn after_kinematics(self, input: Input) -> GameView {
        GameView {
            ball: self.ball.moved().bounced(self.field),
            player: self.player.steered(input).moved().clamped(self.field),
            ..self
        }
    }

    /// Whether the ball has hit the ground: it overlaps the strip and lies on its
    /// top side.
    pub open spec fn ground_hit(self) -> bool {
        overlap_outcome(
            self.ground.position,
            self.ground.half_extents,
            self.ball.position,
            BallView::half_extents(),
        ) == Some(Collision::Top)
    }

    /// Whether the ball hits the ground in the tick that `input` drives from here.
    pub open spec fn hits_ground(self, input: Input) -> bool {
        self.after_kinematics(input).ground_hit()
    }

    /// The state after the ground test: a hit costs health, speeds the ball up and
    /// sends it upward.
    pub open spec fn after_ground(self) -> GameView {
        if self.ground_hit() {
            GameView {
                health: self.health - HEALTH_PENALTY,
                ball: BallView {
                    speed: self.ball.speed + BALL_INC_SPEED_FACTOR,
                    direction: (self.ball.direction.0, 1),
                    ..self.ball
                },
                ..self
            }
        } else {
            self
        }
    }

    /// The outcome of the test of brick `index` against the ball.
    pub open spec fn brick_outcome(self, index: int) -> Option<Collision> {
        overlap_outcome(
            self.bricks[index].position,
            BrickView::half_extents(),
            self.ball.position,
            BallView::half_extents(),
        )
    }

    /// The state after brick `index` was tested: a brick that the ball overlaps
    /// scores, takes lethal damage and deflects the ball.
    pub open spec fn after_brick(self, index: int) -> GameView {
        match self.brick_outcome(index) {
            None => self,
            Some(side) => GameView {
                score: self.score + SCORE_POINT_FACTOR,
                bricks: self.bricks.update(index, self.bricks[index].damaged(LETHAL_DAMAGE as int)),
                ball: deflected_by_brick(self.ball, side),
                ..self
            },
        }
    }

    /// The state after the first `count` bricks were tested, in their order.
    pub open spec fn after_bricks_upto(self, count: nat) -> GameView
        decreases count,
    {
        if count == 0 {
            self
        } else {
            self.after_bricks_upto((count - 1) as nat).after_brick(count - 1)
        }
    }

    /// The state after every brick was tested. Every brick that the ball overlaps
    /// is hit, not only the first.
    pub open spec fn after_bricks(self) -> GameView {
        self.after_bricks_upto(self.bricks.len())
    }

    /// The outcome of the test of the ball against the paddle.
    pub open spec fn paddle_outcome(self) -> Option<Collision> {
        overlap_outcome(
            self.ball.position,
            BallView::half_extents(),
            self.player.position,
            PlayerView::half_extents(),
        )
    }

    /// The state after the paddle test: a paddle that the ball overlaps deflects
    /// it.
    pub open spec fn after_paddle(self) -> GameView {
        match self.paddle_outcome() {
            None => self,
            Some(side) => GameView { ball: deflected_by_paddle(self.ball, side), ..self },
        }
    }

    /// The state after the broken bricks were removed.
    pub open spec fn after_removal(self) -> GameView {
        GameView { bricks: live(self.bricks), ..self }
    }

    /// One step of a running episode, before the phase is looked at: kinematics,
    /// then the ground, brick and paddle tests, then the removal of broken bricks.
    pub open spec fn simulated(self, input: Input) -> GameView {
        self.after_kinematics(input).after_ground().after_bricks().after_paddle().after_removal()
    }

    /// The change of phase that the health asks for: the game is over once the
    /// health is used up.
    pub open spec fn health_request(self) -> Option<GameState> {
        if self.health <= 0 {
            Some(GameState::GameOver)
        } else {
            None
        }
    }

    /// The change of phase that the controls ask for: a running game pauses on
    /// request, a finished game restarts on request, a paused game stays paused.
    pub open spec fn input_request(self, input: Input) -> Option<GameState> {
        match self.state {
            GameState::Playing => if input.pause_or_confirm {
                Some(GameState::PauseMenu)
            } else {
                None
            },
            GameState::GameOver => if input.pause_or_confirm {
                Some(GameState::Playing)
            } else {
                None
            },
            GameState::PauseMenu => None,
        }
    }

    /// The phase that the state asks to change to, if any. The health is looked at
    /// only while playing, and there it comes before the controls.
    pub open spec fn requested(self, input: Input) -> Option<GameState> {
        match self.state {
            GameState::Playing => match self.health_request() {
                Some(to) => Some(to),
                None => self.input_request(input),
            },
            _ => self.input_request(input),
        }
    }

    /// The state after the current phase was left: leaving a running episode
    /// clears the wall and restores the health.
    pub open spec fn left(self) -> GameView {
        match self.state {
            GameState::Playing => GameView {
                bricks: Seq::empty(),
                health: HEALTH_START as int,
                ..self
            },
            _ => self,
        }
    }

    /// The state after phase `to` was entered: a new episode starts with no
    /// points, the ball and the paddle as they are served, and the full wall.
    pub open spec fn entered(self, to: GameState) -> GameView {
        match to {
            GameState::Playing => GameView {
                state: to,
                score: 0,
                ball: BallView::spawn(),
                player: PlayerView::spawn(self.field),
                bricks: grid(self.field),
                ..self
            },
            _ => GameView { state: to, ..self },
        }
    }

    /// The state after the change of phase to `to`: what leaving the old phase
    /// does, then what entering the new one does.
    pub open spec fn transitioned(self, to: GameState) -> GameView {
        self.left().entered(to)
    }

    /// The state after the phase was looked at.
    pub open spec fn after_phase(self, input: Input) -> GameView {
        match self.requested(input) {
            None => self,
            Some(to) => self.transitioned(to),
        }
    }

    /// One tick. A running episode is simulated one step; in every phase the
    /// requested change of phase is then carried out. A notice is raised for each
    /// counter whose value the tick changed, and for both when an episode begins.
    pub open spec fn tick(self, input: Input) -> GameView {
        let stepped = match self.state {
            GameState::Playing => self.simulated(input),
            _ => self,
        };
        let next = stepped.after_phase(input);
        let begun = self.state != GameState::Playing && next.state == GameState::Playing;
        GameView {
            score_updated: begun || next.score != self.score,
            health_updated: begun || next.health != self.health,
            ..next
        }
    }
}

} // verus!
