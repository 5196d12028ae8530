//! Tunables of the match. Lengths are in units of 1/60 pixel and velocities in
//! units per tick; at 60 ticks a second a velocity of `v` units per tick is
//! `v` pixels per second, so every quantity is an exact integer.

use vstd::prelude::*;

verus! {

pub const UNITS_PER_PIXEL: i64 = 60;

/// Ticks simulated per second of play.
pub const TICKS_PER_SECOND: i64 = 60;

/// Paddle displacement per tick along each axis of its direction.
pub const PLAYER_MOVE_SPEED: i64 = 420;

pub const PADDLE_WIDTH: i64 = 7200;

pub const PADDLE_HEIGHT: i64 = 1200;

pub const GAP_BETWEEN_PADDLE_AND_FLOOR: i64 = 3600;

/// How close a paddle can get to a wall.
pub const PADDLE_PADDING: i64 = 600;

pub const BALL_SIZE: i64 = 1800;

pub const BALL_START_X: i64 = 0;

pub const BALL_START_Y: i64 = -3000;

/// Initial ball velocity: 400 pixels per second along (1, -1), rounded.
pub const BALL_START_VELOCITY_X: i64 = 283;

pub const BALL_START_VELOCITY_Y: i64 = -283;

pub const WALL_THICKNESS: i64 = 600;

pub const LEFT_WALL: i64 = -27000;

pub const RIGHT_WALL: i64 = 27000;

pub const BOTTOM_WALL: i64 = -18000;

pub const TOP_WALL: i64 = 18000;

/// Height of the line that splits the arena; paddles stay below it.
pub const DIVIDER_WALL: i64 = 0;

/// How much shorter the divider is than the arena is wide.
pub const DIVIDER_INSET: i64 = 300;

pub const P1_START_X: i64 = -12000;

pub const P2_START_X: i64 = 12000;

/// Floor plus the gap below the paddles.
pub const PLAYER_START_Y: i64 = -14400;

pub const BRICK_WIDTH: i64 = 6000;

pub const BRICK_HEIGHT: i64 = 1800;

pub const GAP_BETWEEN_PADDLE_AND_BRICKS: i64 = 16200;

pub const GAP_BETWEEN_BRICKS: i64 = 300;

pub const GAP_BETWEEN_BRICKS_AND_CEILING: i64 = 1200;

pub const GAP_BETWEEN_BRICKS_AND_SIDES: i64 = 1200;

/// Range of a paddle's centre: the arena's inner edge less half a paddle and
/// the padding (left wall -27000 + 300 + 3600 + 600).
pub const PADDLE_MIN_X: i64 = -22500;

pub const PADDLE_MAX_X: i64 = 22500;

/// Floor -18000 + 300 + 600 + 600.
pub const PADDLE_MIN_Y: i64 = -16500;

/// Divider 0 - 300 - 600 - 600.
pub const PADDLE_MAX_Y: i64 = -1500;

} // verus!
