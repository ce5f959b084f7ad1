//! The game as a whole: counters, ground, collision response, the phase machine
//! and the tick that ties them together.

use crate::ball::{Ball, BALL_INIT_SPEED, BALL_RADIUS};
use crate::field::{Field, FieldView, MAX_FIELD_SIZE};
use crate::geometry::{test_aabb_overlap, Collision, Vec2, Vector};
use crate::input::Input;
use crate::player::{Player, PADDLE_WIDTH};
use crate::preservation::{lemma_initial_wf, lemma_simulated_steady, lemma_tick_wf};
use crate::rules::{axis_guarded, brick_wf, GameView};
use crate::wall::{bricks_health_check, bricks_view, Brick, BRICK_HEALTH};
use vstd::prelude::*;

verus! {

/// What the ball gains in speed each time it hits the ground.
pub const BALL_INC_SPEED_FACTOR: i32 = 2;

/// Points scored per brick hit.
pub const SCORE_POINT_FACTOR: i32 = 10;

/// Health at the start of an episode.
pub const HEALTH_START: i32 = 100;

/// Health lost each time the ball hits the ground.
pub const HEALTH_PENALTY: i32 = 10;

/// Damage that a hit deals to a brick: enough to break a brick at full health.
pub const LETHAL_DAMAGE: i32 = 100;

/// Height of the ground strip in sub-units.
pub const GROUND_HEIGHT: i32 = 250;

/// Height of the ground strip's centre above the bottom edge of the field.
pub const GROUND_ALTITUDE: i32 = 100;

/// How far beyond the edges of the field the centre of a brick or of the paddle
/// may lie.
pub const OBJECT_MARGIN: i32 = 16_000;

/// How far beyond the edges of the field the ball may be and still be sent
/// outward by a collision: [`OBJECT_MARGIN`] plus the largest half-extent of an
/// object plus the ball's radius.
pub const BALL_MARGIN: i32 = 16_600;

/// The highest speed at which the ball moves: the initial speed plus one increment
/// for each ground hit that the starting health can pay for.
pub const BALL_MAX_SPEED: i32 = 50;

/// The phase of the game.
#[derive(Clone, Copy, Debug, PartialEq, Eq, Hash)]
pub enum GameState {
    Playing,
    GameOver,
    PauseMenu,
}

impl Default for GameState {
    /// A game starts out playing.
    fn default() -> (state: GameState)
        ensures
            state == GameState::Playing,
    {
        GameState::Playing
    }
}

/// Notice that the score has to be shown anew.
#[derive(Clone, Copy, Debug, PartialEq, Eq)]
pub struct UpdateScore;

/// Notice that the health has to be shown anew.
#[derive(Clone, Copy, Debug, PartialEq, Eq)]
pub struct UpdateHealth;

impl Default for UpdateScore {
    fn default() -> (notice: UpdateScore)
        ensures
            notice == UpdateScore,
    {
        UpdateScore
    }
}

impl Default for UpdateHealth {
    fn default() -> (notice: UpdateHealth)
        ensures
            notice == UpdateHealth,
    {
        UpdateHealth
    }
}

/// Points collected in the current episode.
#[derive(Clone, Copy, Debug, PartialEq, Eq)]
pub struct Score(pub i32);

/// Health left in the current episode.
#[derive(Clone, Copy, Debug, PartialEq, Eq)]
pub struct Health(pub i32);

impl Default for Score {
    /// No points.
    fn default() -> (score: Score)
        ensures
            score.0 == 0,
    {
        Score(0)
    }
}

impl Default for Health {
    /// No health; an episode starts with [`HEALTH_START`] instead.
    fn default() -> (health: Health)
        ensures
            health.0 == 0,
    {
        Health(0)
    }
}

/// The ground strip along the bottom of the field, given by centre and
/// half-extents.
#[derive(Clone, Copy, Debug, PartialEq, Eq)]
pub struct Ground {
    pub position: Vec2,
    pub half_extents: Vec2,
}

/// The mathematical value of a [`Ground`].
pub struct GroundView {
    pub position: Vector,
    pub half_extents: Vector,
}

impl View for Ground {
    type V = GroundView;

    open spec fn view(&self) -> GroundView {
        GroundView { position: self.position@, half_extents: self.half_extents@ }
    }
}

impl GroundView {
    /// The ground strip of `field`: as wide as the field, centred a little above
    /// its bottom edge.
    pub open spec fn spawn(field: FieldView) -> GroundView {
        GroundView {
            position: Vector { x: 0, y: -field.half_height() + GROUND_ALTITUDE },
            half_extents: Vector { x: field.half_width(), y: GROUND_HEIGHT as int / 2 },
        }
    }
}

impl Ground {
    /// The ground strip of `field`.
    pub fn initialize(field: &Field) -> (ground: Ground)
        requires
            field@.wf(),
        ensures
            ground@ == GroundView::spawn(field@),
    {
        Ground {
            position: Vec2 { x: 0, y: -field.half_height() + GROUND_ALTITUDE },
            half_extents: Vec2 { x: field.half_width(), y: GROUND_HEIGHT / 2 },
        }
    }
}

/// The whole state of a game. The presentation layer reads it between ticks; only
/// [`Game::advance`] is meant to change it.
///
/// `update_score` and `update_health` hold the notices of the latest tick: each is
/// raised at most once per tick and stands until the next tick replaces it.
#[derive(Clone, Debug, PartialEq, Eq)]
pub struct Game {
    pub field: Field,
    pub state: GameState,
    pub ball: Ball,
    pub player: Player,
    pub bricks: Vec<Brick>,
    pub ground: Ground,
    pub score: Score,
    pub health: Health,
    pub update_score: Option<UpdateScore>,
    pub update_health: Option<UpdateHealth>,
}

impl View for Game {
    type V = GameView;

    open spec fn view(&self) -> GameView {
        GameView {
            field: self.field@,
            state: self.state,
            ball: self.ball@,
            player: self.player@,
            bricks: bricks_view(self.bricks@),
            ground: self.ground@,
            score: self.score.0 as int,
            health: self.health.0 as int,
            score_updated: self.update_score.is_some(),
            health_updated: self.update_health.is_some(),
        }
    }
}

impl Game {
    /// A game on `field`, with its first episode just begun.
    pub fn new(field: Field) -> (game: Game)
        requires
            field@.wf(),
        ensures
            game@ == GameView::initial(field@),
            game@.wf(),
    {
        proof {
            lemma_initial_wf(field@);
        }
        Game {
            field,
            state: GameState::Playing,
            ball: Ball::initialize(),
            player: Player::initialize(&field),
            bricks: crate::wall::initialize(&field),
            ground: Ground::initialize(&field),
            score: Score(0),
            health: Health(HEALTH_START),
            update_score: Some(UpdateScore),
            update_health: Some(UpdateHealth),
        }
    }

    /// Sets the score back to zero.
    pub fn reset_score(&mut self)
        ensures
            final(self)@ == (GameView { score: 0, ..old(self)@ }),
    {
        self.score = Score(0);
    }

    /// Sets the health back to its starting value.
    pub fn reset_health(&mut self)
        ensures
            final(self)@ == (GameView { health: HEALTH_START as int, ..old(self)@ }),
    {
        self.health = Health(HEALTH_START);
    }

    /// Tests the ball against the ground strip and, on a hit, takes the penalty
    /// from the health, speeds the ball up and sends it upward. Says whether the
    /// ball hit.
    pub fn ball_hit_bottom(&mut self) -> (hit: bool)
        requires
            i32::MIN <= old(self).health.0 - HEALTH_PENALTY,
            old(self).ball.speed + BALL_INC_SPEED_FACTOR <= i32::MAX,
        ensures
            hit == old(self)@.ground_hit(),
            final(self)@ == old(self)@.after_ground(),
    {
        let radius: i32 = self.ball.get_default_radius();
        let collision = test_aabb_overlap(
            self.ground.position,
            self.ground.half_extents,
            self.ball.position,
            Vec2 { x: radius, y: radius },
        );
        match collision {
            Some(Collision::Top) => {
                self.health = Health(self.health.0 - HEALTH_PENALTY);
                self.ball.speed = self.ball.speed + BALL_INC_SPEED_FACTOR;
                self.ball.direction.1 = 1;
                true
            },
            _ => false,
        }
    }

    /// Tests every brick against the ball. Each brick that the ball overlaps
    /// scores, takes lethal damage and deflects the ball; broken bricks stay in the
    /// wall until the removal pass.
    pub fn ball_block_collision(&mut self)
        requires
            old(self).score.0 + SCORE_POINT_FACTOR * old(self).bricks@.len() <= i32::MAX,
            forall|i: int|
                0 <= i < old(self).bricks@.len() ==> i32::MIN <= (#[trigger] old(
                    self,
                ).bricks@[i]).health - LETHAL_DAMAGE,
        ensures
            final(self)@ == old(self)@.after_bricks(),
    {
        let radius: i32 = self.ball.get_default_radius();
        let ghost start = self@;
        let ghost start_bricks = self.bricks@;
        let mut i: usize = 0;
        while i < self.bricks.len()
            invariant
                i <= self.bricks@.len(),
                radius == BALL_RADIUS,
                self.bricks@.len() == start_bricks.len(),
                start.bricks == bricks_view(start_bricks),
                self@ == start.after_bricks_upto(i as nat),
                self.score.0 + SCORE_POINT_FACTOR * (start_bricks.len() - i) <= i32::MAX,
                forall|k: int| i <= k < start_bricks.len() ==> self.bricks@[k] == start_bricks[k],
                forall|k: int|
                    0 <= k < start_bricks.len() ==> i32::MIN <= (#[trigger] start_bricks[k]).health
                        - LETHAL_DAMAGE,
            decreases self.bricks@.len() - i,
        {
            let ghost before = self@;
            let mut brick: Brick = self.bricks[i];
            assert(brick == start_bricks[i as int]);
            let size: Vec2 = brick.get_brick_size();
            let collision = test_aabb_overlap(
                brick.position,
                Vec2 { x: size.x / 2, y: size.y / 2 },
                self.ball.position,
                Vec2 { x: radius, y: radius },
            );
            match collision {
                None => {},
                Some(side) => {
                    self.score = Score(self.score.0 + SCORE_POINT_FACTOR);
                    brick.apply_damage(LETHAL_DAMAGE);
                    self.bricks.set(i, brick);
                    match side {
                        Collision::Left => {
                            self.ball.direction.0 = -1;
                        },
                        Collision::Right => {
                            self.ball.direction.0 = 1;
                        },
                        Collision::Top => {
                            self.ball.direction.1 = 1;
                        },
                        Collision::Bottom => {
                            self.ball.direction.1 = -1;
                        },
                        Collision::Inside => {},
                    }
                    assert(self@.bricks =~= before.bricks.update(
                        i as int,
                        before.bricks[i as int].damaged(LETHAL_DAMAGE as int),
                    ));
                },
            }
            i = i + 1;
        }
    }

    /// Tests the ball against the paddle; a paddle that the ball overlaps deflects
    /// it.
    pub fn player_ball_collision(&mut self)
        ensures
            final(self)@ == old(self)@.after_paddle(),
    {
        let radius: i32 = self.ball.get_default_radius();
        let size: Vec2 = self.player.get_default_size();
        let collision = test_aabb_overlap(
            self.ball.position,
            Vec2 { x: radius, y: radius },
            self.player.position,
            Vec2 { x: size.x / 2, y: size.y / 2 },
        );
        match collision {
            Some(Collision::Top) => {
                self.ball.direction.1 = -1;
            },
            Some(Collision::Bottom) => {
                self.ball.direction.1 = 1;
            },
            Some(Collision::Left) => {
                self.ball.direction.0 = 1;
            },
            Some(Collision::Right) => {
                self.ball.direction.0 = -1;
            },
            _ => {},
        }
    }
    /// Says whether the health is used up, by naming the phase to change to.
    pub fn game_over(&self) -> (next: Option<GameState>)
        ensures
            next == self@.health_request(),
    {
        if self.health.0 <= 0 {
            Some(GameState::GameOver)
        } else {
            None
        }
    }

    /// Reads the change of phase that the controls ask for.
    pub fn process_global_input(&self, input: &Input) -> (next: Option<GameState>)
        ensures
            next == self@.input_request(*input),
    {
        match self.state {
            GameState::GameOver => {
                if input.pause_or_confirm {
                    Some(GameState::Playing)
                } else {
                    None
                }
            },
            GameState::Playing => {
                if input.pause_or_confirm {
                    Some(GameState::PauseMenu)
                } else {
                    None
                }
            },
            GameState::PauseMenu => None,
        }
    }

    /// Changes the phase to `to`: does what leaving the current phase asks for,
    /// then what entering `to` asks for.
    pub fn transition(&mut self, to: GameState)
        requires
            old(self)@.field.wf(),
        ensures
            final(self)@ == old(self)@.transitioned(to),
    {
        let field: Field = self.field;
        match self.state {
            GameState::Playing => {
                crate::wall::reset(&mut self.bricks);
                self.reset_health();
            },
            _ => {},
        }
        match to {
            GameState::Playing => {
                self.reset_score();
                self.ball.reset();
                self.player.reset(&field);
                self.bricks = crate::wall::initialize(&field);
            },
            _ => {},
        }
        self.state = to;
    }

    /// Runs one tick with the controls as `input` says.
    ///
    /// A running episode is stepped: the paddle is steered, ball and paddle move,
    /// the ball bounces off the edges and the paddle is clamped; the ball is
    /// tested against the ground, every brick and the paddle; broken bricks are
    /// removed. Then, in every phase, the requested change of phase is carried out.
    /// Last the notices are set: one for each counter that the tick changed, both
    /// when an episode has begun.
    pub fn advance(&mut self, input: &Input)
        requires
            old(self)@.wf(),
        ensures
            final(self)@ == old(self)@.tick(*input),
            final(self)@.wf(),
            final(self)@.field == old(self)@.field,
            final(self)@.ground == old(self)@.ground,
    {
        let ghost start = self@;
        let score_before: i32 = self.score.0;
        let health_before: i32 = self.health.0;
        let field: Field = self.field;
        let was_playing: bool = match self.state {
            GameState::Playing => true,
            _ => false,
        };
        if was_playing {
            self.player.process_player_input(input);
            self.ball.update_ball_movement();
            self.ball.update_ball_direction(&field);
            self.player.update_player_movement();
            self.player.process_player_collision(&field);
            self.ball_hit_bottom();
            assert forall|i: int| 0 <= i < self.bricks@.len() implies i32::MIN <= (
            #[trigger] self.bricks@[i]).health - LETHAL_DAMAGE by {
                assert(self@.bricks[i] == start.bricks[i]);
            }
            self.ball_block_collision();
            self.player_ball_collision();
            bricks_health_check(&mut self.bricks);
            proof {
                lemma_simulated_steady(start, *input);
            }
            assert(self@ == start.simulated(*input));
        }
        let health_request = match self.state {
            GameState::Playing => self.game_over(),
            _ => None,
        };
        let request = match health_request {
            Some(to) => Some(to),
            None => self.process_global_input(input),
        };
        let mut begun: bool = false;
        match request {
            None => {},
            Some(to) => {
                self.transition(to);
                begun = !was_playing && match to {
                    GameState::Playing => true,
                    _ => false,
                };
            },
        }
        self.update_score = if begun || self.score.0 != score_before {
            Some(UpdateScore)
        } else {
            None
        };
        self.update_health = if begun || self.health.0 != health_before {
            Some(UpdateHealth)
        } else {
            None
        };
        proof {
            lemma_tick_wf(start, *input);
        }
    }

    /// Whether the wall is made of live bricks in reach of the field, at no more
    /// than full health.
    fn wall_is_valid(&self) -> (ok: bool)
        requires
            self@.field.wf(),
        ensures
            ok == (forall|i: int|
                0 <= i < self@.bricks.len() ==> brick_wf(#[trigger] self@.bricks[i], self@.field)),
    {
        let half_width: i32 = self.field.half_width();
        let half_height: i32 = self.field.half_height();
        let mut i: usize = 0;
        while i < self.bricks.len()
            invariant
                i <= self.bricks@.len(),
                self@.field.wf(),
                half_width == self@.field.half_width(),
                half_height == self@.field.half_height(),
                forall|k: int| 0 <= k < i ==> brick_wf(#[trigger] self@.bricks[k], self@.field),
            decreases self.bricks@.len() - i,
        {
            let brick: Brick = self.bricks[i];
            let ok: bool = is_in_reach(brick.position, half_width, half_height) && 0 < brick.health
                && brick.health <= BRICK_HEALTH;
            if !ok {
                assert(!brick_wf(self@.bricks[i as int], self@.field));
                return false;
            }
            i = i + 1;
        }
        true
    }

    /// Whether the game is in a state that a tick can start from. Every game that
    /// [`Game::new`] made and only [`Game::advance`] changed is; a host that sets
    /// fields by hand can ask here before it runs a tick.
    pub fn is_well_formed(&self) -> (ok: bool)
        ensures
            ok == self@.wf(),
    {
        if !self.field.is_valid() {
            return false;
        }
        let half_width: i32 = self.field.half_width();
        let half_height: i32 = self.field.half_height();
        let ground_ok: bool = self.ground.position.x == 0 && self.ground.position.y == -half_height
            + GROUND_ALTITUDE && self.ground.half_extents.x == half_width
            && self.ground.half_extents.y == GROUND_HEIGHT / 2;
        let slack: i32 = half_width - PADDLE_WIDTH / 2;
        let player_ok: bool = is_in_reach(self.player.position, half_width, half_height) && if slack
            >= 0 {
            -slack <= self.player.position.x && self.player.position.x <= slack
        } else {
            slack <= self.player.position.x && self.player.position.x <= -slack
        };
        let score_ok: bool = self.score.0 as i128 + SCORE_POINT_FACTOR as i128
            * self.bricks.len() as i128 <= i32::MAX as i128;
        let phase_ok: bool = match self.state {
            GameState::Playing => {
                0 <= self.health.0 && self.health.0 <= HEALTH_START && HEALTH_PENALTY as i64 * (
                self.ball.speed as i64 - BALL_INIT_SPEED as i64) == BALL_INC_SPEED_FACTOR as i64 * (
                HEALTH_START as i64 - self.health.0 as i64) && axis_is_guarded(
                    self.ball.position.x,
                    self.ball.direction.0,
                    half_width + BALL_MARGIN,
                ) && axis_is_guarded(
                    self.ball.position.y,
                    self.ball.direction.1,
                    half_height + BALL_MARGIN,
                )
            },
            _ => self.health.0 == HEALTH_START && self.bricks.len() == 0,
        };
        ground_ok && self.ball.is_valid() && player_ok && score_ok && phase_ok
            && self.wall_is_valid()
    }
}

/// Whether the ball is guarded along one axis.
fn axis_is_guarded(coordinate: i32, heading: i32, reach: i32) -> (ok: bool)
    requires
        0 <= reach <= MAX_FIELD_SIZE,
    ensures
        ok == axis_guarded(coordinate as int, heading as int, reach as int),
{
    -reach - BALL_MAX_SPEED <= coordinate && coordinate <= reach + BALL_MAX_SPEED && (coordinate
        < reach || heading <= 0) && (coordinate > -reach || heading >= 0)
}

/// Whether a position is in reach of a field with the given half-extents.
fn is_in_reach(position: Vec2, half_width: i32, half_height: i32) -> (ok: bool)
    requires
        0 <= half_width <= MAX_FIELD_SIZE / 2,
        0 <= half_height <= MAX_FIELD_SIZE / 2,
    ensures
        ok == (-half_width - OBJECT_MARGIN <= position.x <= half_width + OBJECT_MARGIN
            && -half_height - OBJECT_MARGIN <= position.y <= half_height + OBJECT_MARGIN),
{
    -half_width - OBJECT_MARGIN <= position.x && position.x <= half_width + OBJECT_MARGIN
        && -half_height - OBJECT_MARGIN <= position.y && position.y <= half_height + OBJECT_MARGIN
}

} // verus!
