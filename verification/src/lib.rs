//! The simulation core of a two-paddle Pong game: a ball that bounces between
//! a paddle steered by the keys and a paddle that follows the ball, on a
//! screen with walls at the top and the bottom.
//!
//! All numbers are fixed-point integers, so that every rule of the game is
//! exact: lengths are counted in millionths of a pixel, times in millionths
//! of a second, velocities in length units per second (`units`). Each type
//! has a view in unbounded integers on which the rules are stated; a function
//! that computes new coordinates asks that they can be stored, and a function
//! beside it tells whether they can.
//!
//! - `units`: the fixed-point arithmetic.
//! - `collision`: bounding boxes, moving them, and the overlap test.
//! - `objects`: the paddles and the ball.
//! - `scene`: the figures and texts a frame is made of.
//! - `game`: the rules of a tick, the keys, and the contents of a frame.

pub mod collision;
pub mod game;
pub mod objects;
pub mod scene;
pub mod units;
