//! The physics core of a two-paddle ball game, in fixed-point arithmetic.
//!
//! A ball moves through a rectangular arena, is reflected by its walls and
//! bounces off two paddles at an angle that grows with the distance of the
//! bounce point from the middle of the paddle. This crate holds the state of
//! such a game and everything that a frame decides: where the ball goes, what
//! an input event does, what is drawn and how long the frame loop sleeps.
//! The window, the pointer, the clock and the drawing calls belong to the
//! program around it, which hands over plain numbers and gets plain numbers
//! back.
//!
//! All quantities are integers. Lengths are counted in thousandths of a
//! pixel, velocities in those units per second, time in milliseconds and
//! angles in millionths of a radian; every quotient rounds toward zero.
//! Cosine and sine are the one thing that the crate asks of its caller: a
//! function from an angle to a [`heading::Heading`].
//!
//! * [`units`] has the scales and the integer arithmetic.
//! * [`arena`], [`ball`], [`paddle`] and [`heading`] have the parts of a game.
//! * [`physics`] says, over mathematical integers, what a frame does to the
//!   ball; [`resolver`] computes it; [`laws`] proves what holds of every frame.
//! * [`game`] has the state of a game and its frame; [`scene`] what is drawn.
//! * [`builder`] leads from the tunables to the first state of a game, and
//!   [`random`] draws the launch of the ball.

pub mod units;
pub mod scene;
pub mod arena;
pub mod heading;
pub mod ball;
pub mod paddle;
pub mod physics;
pub mod resolver;
pub mod game;
pub mod random;
pub mod builder;
pub mod laws;
