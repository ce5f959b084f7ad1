//! Simulation core of a brick-breaking arcade game.
//!
//! The crate owns the ball, the paddle, the field of bricks and the ground strip,
//! advances them one fixed step at a time, resolves their collisions and runs the
//! phase machine (playing, game over, paused). Lengths are fixed-point integers:
//! one length unit is [`geometry::UNIT`] sub-units, so every quantity of the game
//! is exact and a tick is reproducible bit for bit.
//!
//! Every executable function carries a contract over the mathematical view of the
//! state, and the step function of that view, [`rules::GameView::tick`], is what
//! [`game::Game::advance`] is proved to compute. [`preservation`] proves that a tick
//! keeps a game well formed, [`episode`] what holds of every run of ticks.

pub mod ball;
pub mod episode;
pub mod field;
pub mod game;
pub mod geometry;
pub mod input;
pub mod player;
pub mod preservation;
pub mod response;
pub mod rules;
pub mod wall;

pub use crate::ball::Ball;
pub use crate::field::Field;
pub use crate::game::{Game, GameState, Ground, Health, Score, UpdateHealth, UpdateScore};
pub use crate::geometry::{test_aabb_overlap, Collision, Vec2};
pub use crate::input::Input;
pub use crate::player::{Player, PlayerDirection};
pub use crate::wall::Brick;
