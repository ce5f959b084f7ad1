//! The ball: position, heading and speed, and its bounce off the field's edges.

use crate::field::{Field, FieldView};
use crate::geometry::{Vec2, Vector};
use vstd::prelude::*;

verus! {

/// Radius of the ball in sub-units. In collision tests the ball is its bounding
/// square, with this half-extent on both axes.
pub const BALL_RADIUS: i32 = 100;

/// Speed of a freshly served ball, in sub-units per tick.
pub const BALL_INIT_SPEED: i32 = 30;

/// The ball. Each component of `direction` is -1, 0 or 1; `speed` is the distance
/// covered per tick along each axis on which the ball is heading.
#[derive(Clone, Copy, Debug, PartialEq, Eq)]
pub struct Ball {
    pub position: Vec2,
    pub speed: i32,
    pub direction: (i32, i32),
}

/// The mathematical value of a [`Ball`].
pub struct BallView {
    pub position: Vector,
    pub speed: int,
    pub direction: (int, int),
}

impl View for Ball {
    type V = BallView;

    open spec fn view(&self) -> BallView {
        BallView {
            position: self.position@,
            speed: self.speed as int,
            direction: (self.direction.0 as int, self.direction.1 as int),
        }
    }
}

impl BallView {
    /// The ball as it is served: at the centre of the field, heading up and to the
    /// right at the initial speed.
    pub open spec fn spawn() -> BallView {
        BallView {
            position: Vector { x: 0, y: 0 },
            speed: BALL_INIT_SPEED as int,
            direction: (1, 1),
        }
    }

    /// Each component of the heading is -1, 0 or 1, not both are 0, and the speed
    /// is not below the initial speed.
    pub open spec fn wf(self) -> bool {
        &&& -1 <= self.direction.0 <= 1
        &&& -1 <= self.direction.1 <= 1
        &&& self.direction.0 != 0 || self.direction.1 != 0
        &&& self.speed >= BALL_INIT_SPEED
    }

    /// The half-extents of the ball's bounding square.
    pub open spec fn half_extents() -> Vector {
        Vector { x: BALL_RADIUS as int, y: BALL_RADIUS as int }
    }

    /// The signed distance covered in one tick on an axis: `heading * speed` for
    /// the three headings a ball can have.
    pub open spec fn stride(heading: int, speed: int) -> int {
        if heading == 1 {
            speed
        } else if heading == -1 {
            -speed
        } else {
            0
        }
    }

    /// The ball one tick further along its heading.
    pub open spec fn moved(self) -> BallView {
        BallView {
            position: Vector {
                x: self.position.x + Self::stride(self.direction.0, self.speed),
                y: self.position.y + Self::stride(self.direction.1, self.speed),
            },
            ..self
        }
    }

    /// The heading on one axis after the edges of that axis had their say: a ball
    /// within a radius of the far edge heads back, one within a radius of the near
    /// edge heads forth, any other keeps its heading.
    pub open spec fn turned_inward(coordinate: int, limit: int, heading: int) -> int {
        if coordinate >= limit {
            -1
        } else if coordinate <= -limit {
            1
        } else {
            heading
        }
    }

    /// The ball after the bounce off the edges of `field`. The position is left
    /// alone; only the heading turns.
    pub open spec fn bounced(self, field: FieldView) -> BallView {
        BallView {
            direction: (
                Self::turned_inward(
                    self.position.x,
                    field.half_width() - BALL_RADIUS,
                    self.direction.0,
                ),
                Self::turned_inward(
                    self.position.y,
                    field.half_height() - BALL_RADIUS,
                    self.direction.1,
                ),
            ),
            ..self
        }
    }
}

impl Ball {
    /// Whether the heading and the speed are those of a valid ball.
    pub fn is_valid(&self) -> (ok: bool)
        ensures
            ok == self@.wf(),
    {
        -1 <= self.direction.0 && self.direction.0 <= 1 && -1 <= self.direction.1
            && self.direction.1 <= 1 && (self.direction.0 != 0 || self.direction.1 != 0)
            && self.speed >= BALL_INIT_SPEED
    }

    /// The radius of every ball.
    pub fn get_default_radius(&self) -> (radius: i32)
        ensures
            radius == BALL_RADIUS,
    {
        BALL_RADIUS
    }

    /// A ball as it is served.
    pub fn initialize() -> (ball: Ball)
        ensures
            ball@ == BallView::spawn(),
    {
        Ball { position: Vec2 { x: 0, y: 0 }, speed: BALL_INIT_SPEED, direction: (1, 1) }
    }

    /// Puts the ball back to the state in which it is served.
    pub fn reset(&mut self)
        ensures
            final(self)@ == BallView::spawn(),
    {
        self.speed = BALL_INIT_SPEED;
        self.direction = (1, 1);
        self.position = Vec2 { x: 0, y: 0 };
    }

    /// Turns the ball inward where it has come within a radius of an edge of the
    /// field. All four edges turn the ball; the bottom edge is the safety net under
    /// the ground strip.
    pub fn update_ball_direction(&mut self, field: &Field)
        requires
            field@.wf(),
        ensures
            final(self)@ == old(self)@.bounced(field@),
    {
        let limit_x: i32 = field.half_width() - BALL_RADIUS;
        let limit_y: i32 = field.half_height() - BALL_RADIUS;
        if self.position.x >= limit_x {
            self.direction.0 = -1;
        } else if self.position.x <= -limit_x {
            self.direction.0 = 1;
        }
        if self.position.y >= limit_y {
            self.direction.1 = -1;
        } else if self.position.y <= -limit_y {
            self.direction.1 = 1;
        }
    }

    /// Moves the ball one tick along its heading.
    pub fn update_ball_movement(&mut self)
        requires
            i32::MIN <= old(self)@.moved().position.x <= i32::MAX,
            i32::MIN <= old(self)@.moved().position.y <= i32::MAX,
        ensures
            final(self)@ == old(self)@.moved(),
    {
        if self.direction.0 == 1 {
            self.position.x = self.position.x + self.speed;
        } else if self.direction.0 == -1 {
            self.position.x = self.position.x - self.speed;
        }
        if self.direction.1 == 1 {
            self.position.y = self.position.y + self.speed;
        } else if self.direction.1 == -1 {
            self.position.y = self.position.y - self.speed;
        }
    }
}

} // verus!
