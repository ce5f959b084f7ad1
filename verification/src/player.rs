//! The paddle: steering, movement and the clamp to the field.

use crate::field::{Field, FieldView};
use crate::geometry::{Vec2, Vector};
use crate::input::Input;
use vstd::prelude::*;

verus! {

/// Distance the paddle covers per tick, in sub-units.
pub const MOVEMENT_SPEED: i32 = 15;

/// Extra distance per tick while the boost is held.
pub const MOVEMENT_SPEED_BOOST: i32 = 20;

/// Width of the paddle in sub-units.
pub const PADDLE_WIDTH: i32 = 1000;

/// Height of the paddle in sub-units.
pub const PADDLE_HEIGHT: i32 = 200;

/// Height of the paddle's centre above the bottom edge of the field.
pub const PADDLE_ALTITUDE: i32 = 1000;

/// The way the paddle is being steered.
#[derive(Clone, Copy, Debug, PartialEq, Eq)]
pub enum PlayerDirection {
    Left,
    Right,
}

/// The paddle. `direction` is the standing intent: once set it lasts until the
/// other way is chosen or an edge of the field stops the paddle. An edge that
/// stopped the paddle forbids further movement towards it until the paddle is
/// steered away.
#[derive(Clone, Copy, Debug, PartialEq, Eq)]
pub struct Player {
    pub position: Vec2,
    pub direction: Option<PlayerDirection>,
    pub can_move_left: bool,
    pub can_move_right: bool,
    pub boosting: bool,
}

/// The mathematical value of a [`Player`].
pub struct PlayerView {
    pub position: Vector,
    pub direction: Option<PlayerDirection>,
    pub can_move_left: bool,
    pub can_move_right: bool,
    pub boosting: bool,
}

impl View for Player {
    type V = PlayerView;

    open spec fn view(&self) -> PlayerView {
        PlayerView {
            position: self.position@,
            direction: self.direction,
            can_move_left: self.can_move_left,
            can_move_right: self.can_move_right,
            boosting: self.boosting,
        }
    }
}

impl PlayerView {
    /// The half-extents of the paddle.
    pub open spec fn half_extents() -> Vector {
        Vector { x: PADDLE_WIDTH as int / 2, y: PADDLE_HEIGHT as int / 2 }
    }

    /// The paddle at the start of an episode: centred, near the bottom of `field`,
    /// at rest and free to move either way.
    pub open spec fn spawn(field: FieldView) -> PlayerView {
        PlayerView {
            position: Vector { x: 0, y: -field.half_height() + PADDLE_ALTITUDE },
            direction: None,
            can_move_left: true,
            can_move_right: true,
            boosting: false,
        }
    }

    /// The paddle after the controls were read. Steering one way re-allows the
    /// other; when both ways are held and allowed, right wins.
    pub open spec fn steered(self, input: Input) -> PlayerView {
        let left = if input.move_left && self.can_move_left {
            PlayerView {
                direction: Some(PlayerDirection::Left),
                can_move_right: true,
                boosting: input.boost,
                ..self
            }
        } else {
            PlayerView { boosting: input.boost, ..self }
        };
        if input.move_right && left.can_move_right {
            PlayerView { direction: Some(PlayerDirection::Right), can_move_left: true, ..left }
        } else {
            left
        }
    }

    /// Distance covered per tick: the base speed, plus the bonus while boosting.
    pub open spec fn effective_speed(self) -> int {
        if self.boosting {
            MOVEMENT_SPEED + MOVEMENT_SPEED_BOOST
        } else {
            MOVEMENT_SPEED as int
        }
    }

    /// The paddle one tick further along its intent.
    pub open spec fn moved(self) -> PlayerView {
        let x = match self.direction {
            None => self.position.x,
            Some(PlayerDirection::Left) => self.position.x - self.effective_speed(),
            Some(PlayerDirection::Right) => self.position.x + self.effective_speed(),
        };
        PlayerView { position: Vector { x, y: self.position.y }, ..self }
    }

    /// The paddle after the clamp to `field`. A paddle whose right edge is at or
    /// beyond the right edge of the field is put flush against it, loses its intent
    /// and may no longer move right, but may move left; the left edge likewise.
    pub open spec fn clamped(self, field: FieldView) -> PlayerView {
        let half = Self::half_extents().x;
        if self.position.x + half >= field.half_width() {
            PlayerView {
                position: Vector { x: field.half_width() - half, y: self.position.y },
                direction: None,
                can_move_right: false,
                can_move_left: true,
                ..self
            }
        } else if self.position.x - half <= -field.half_width() {
            PlayerView {
                position: Vector { x: -field.half_width() + half, y: self.position.y },
                direction: None,
                can_move_left: false,
                can_move_right: true,
                ..self
            }
        } else {
            self
        }
    }

    /// The whole paddle lies between the left and the right edge of `field`.
    pub open spec fn contained(self, field: FieldView) -> bool {
        -field.half_width() + Self::half_extents().x <= self.position.x <= field.half_width()
            - Self::half_extents().x
    }
}

impl Player {
    /// The size of every paddle, width and height.
    pub fn get_default_size(&self) -> (size: Vec2)
        ensures
            size@ == (Vector { x: PADDLE_WIDTH as int, y: PADDLE_HEIGHT as int }),
    {
        Vec2 { x: PADDLE_WIDTH, y: PADDLE_HEIGHT }
    }

    /// A paddle at the start of an episode.
    pub fn initialize(field: &Field) -> (player: Player)
        requires
            field@.wf(),
        ensures
            player@ == PlayerView::spawn(field@),
    {
        Player {
            position: Vec2 { x: 0, y: -field.half_height() + PADDLE_ALTITUDE },
            direction: None,
            can_move_left: true,
            can_move_right: true,
            boosting: false,
        }
    }

    /// Puts the paddle back to the state in which an episode starts.
    pub fn reset(&mut self, field: &Field)
        requires
            field@.wf(),
        ensures
            final(self)@ == PlayerView::spawn(field@),
    {
        self.boosting = false;
        self.can_move_left = true;
        self.can_move_right = true;
        self.direction = None;
        self.position = Vec2 { x: 0, y: -field.half_height() + PADDLE_ALTITUDE };
    }

    /// Reads the controls into the paddle's intent and boost flag.
    pub fn process_player_input(&mut self, input: &Input)
        ensures
            final(self)@ == old(self)@.steered(*input),
    {
        self.boosting = input.boost;
        if input.move_left && self.can_move_left {
            self.direction = Some(PlayerDirection::Left);
            self.can_move_right = true;
        }
        if input.move_right && self.can_move_right {
            self.direction = Some(PlayerDirection::Right);
            self.can_move_left = true;
        }
    }

    /// Moves the paddle one tick along its intent.
    pub fn update_player_movement(&mut self)
        requires
            i32::MIN <= old(self)@.moved().position.x <= i32::MAX,
        ensures
            final(self)@ == old(self)@.moved(),
    {
        let final_speed: i32 = if self.boosting {
            MOVEMENT_SPEED + MOVEMENT_SPEED_BOOST
        } else {
            MOVEMENT_SPEED
        };
        match self.direction {
            None => {},
            Some(PlayerDirection::Left) => {
                self.position.x = self.position.x - final_speed;
            },
            Some(PlayerDirection::Right) => {
                self.position.x = self.position.x + final_speed;
            },
        }
    }

    /// Clamps the paddle to the field and stops it at the edge it reached.
    pub fn process_player_collision(&mut self, field: &Field)
        requires
            field@.wf(),
        ensures
            final(self)@ == old(self)@.clamped(field@),
            field@.half_width() >= PlayerView::half_extents().x ==> final(self)@.contained(field@),
    {
        let half: i32 = PADDLE_WIDTH / 2;
        let limit_x: i32 = field.half_width() - half;
        if self.position.x as i64 + half as i64 >= field.half_width() as i64 {
            self.position.x = limit_x;
            self.direction = None;
            self.can_move_right = false;
            self.can_move_left = true;
        } else if self.position.x as i64 - half as i64 <= -(field.half_width() as i64) {
            self.position.x = -limit_x;
            self.direction = None;
            self.can_move_left = false;
            self.can_move_right = true;
        }
    }
}

} // verus!
