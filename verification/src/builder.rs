//! The tunables of a game and the way from them to its first state.

use vstd::prelude::*;
use crate::arena::{Arena, ArenaView};
use crate::ball::{keeps_speed, lemma_turning_keeps_speed, Ball, BallView};
use crate::game::{Game, GameView};
use crate::heading::{Heading, HeadingView};
use crate::paddle::{Paddle, PaddleView};
use crate::physics::launch_speed;
use crate::random::Launch;
use crate::resolver::{launch, lemma_launch_within_speed};
use crate::scene::Color;
use crate::units::{isqrt, magnitude, quot, square, QUARTER_TURN};

verus! {

/// Why a set of tunables describes no game. Where several faults are
/// present, the one that comes first in this list is reported.
#[derive(Clone, Copy, Debug, PartialEq, Eq, Structural)]
pub enum ConfigError {
    /// An extent of the arena is not positive.
    ArenaSize,
    /// The frame rate is zero.
    FrameRate,
    /// The diameter of the ball is not positive.
    BallDiameter,
    /// The speed of the ball is not positive.
    BallSpeed,
    /// An extent of the paddles is not positive.
    PaddleSize,
    /// The speed of the paddles is not positive.
    PaddleSpeed,
    /// The right paddle would stand outside the range of coordinates.
    PaddleOffset,
    /// The steepest launch is not short of a quarter turn.
    LaunchAngle,
    /// The steepest bounce is not short of a quarter turn.
    BounceAngle,
}

/// The tunables of a game. Lengths are in length units, speeds in length
/// units per second, angles in millionths of a radian.
#[derive(Clone, Copy, Debug, PartialEq, Eq, Structural)]
pub struct GameBuilder {
    pub arena_color: Color,
    pub arena_width: i32,
    pub arena_height: i32,
    pub fps: u32,
    pub ball_color: Color,
    pub ball_speed: i32,
    pub ball_diameter: i32,
    pub lpaddle_color: Color,
    pub rpaddle_color: Color,
    pub paddle_offset: i32,
    pub paddle_width: i32,
    pub paddle_height: i32,
    pub paddle_speed: i32,
    pub max_launch_angle: u32,
    pub max_bounce_angle: u32,
}

/// `r` is the integer square root of `n`.
pub open spec fn is_floor_sqrt(r: int, n: int) -> bool {
    0 <= r && r * r <= n < (r + 1) * (r + 1)
}

impl GameBuilder {
    /// The tunables that a builder starts from: a white ball and white
    /// paddles in a white arena of 480 by 320 pixels, at 40 frames per
    /// second.
    pub open spec fn standard() -> GameBuilder {
        GameBuilder {
            arena_color: Color { r: 0xff, g: 0xff, b: 0xff },
            arena_width: 480_000,
            arena_height: 320_000,
            fps: 40,
            ball_color: Color { r: 0xff, g: 0xff, b: 0xff },
            ball_speed: 320_000,
            ball_diameter: 10_000,
            lpaddle_color: Color { r: 0xff, g: 0xff, b: 0xff },
            rpaddle_color: Color { r: 0xff, g: 0xff, b: 0xff },
            paddle_offset: 4_000,
            paddle_width: 10_000,
            paddle_height: 80_000,
            paddle_speed: 640_000,
            max_launch_angle: 785_398,
            max_bounce_angle: 261_799,
        }
    }

    /// The `x` of the right paddle: it stands as far from the right wall as
    /// the left paddle stands from the left wall.
    pub open spec fn right_paddle_x(self) -> int {
        self.arena_width - (self.paddle_offset + self.paddle_width)
    }

    /// The `y` of both paddles at the start: half-way down the arena.
    pub open spec fn paddle_y(self) -> int {
        quot(self.arena_height - self.paddle_height, 2)
    }

    /// The first fault of the tunables, if they have one.
    pub open spec fn fault(self) -> Option<ConfigError> {
        if self.arena_width <= 0 || self.arena_height <= 0 {
            Some(ConfigError::ArenaSize)
        } else if self.fps == 0 {
            Some(ConfigError::FrameRate)
        } else if self.ball_diameter <= 0 {
            Some(ConfigError::BallDiameter)
        } else if self.ball_speed <= 0 {
            Some(ConfigError::BallSpeed)
        } else if self.paddle_width <= 0 || self.paddle_height <= 0 {
            Some(ConfigError::PaddleSize)
        } else if self.paddle_speed <= 0 {
            Some(ConfigError::PaddleSpeed)
        } else if self.right_paddle_x() < i32::MIN || self.right_paddle_x() > i32::MAX {
            Some(ConfigError::PaddleOffset)
        } else if self.max_launch_angle > QUARTER_TURN {
            Some(ConfigError::LaunchAngle)
        } else if self.max_bounce_angle > QUARTER_TURN {
            Some(ConfigError::BounceAngle)
        } else {
            None
        }
    }

    /// The arena that the tunables describe.
    pub open spec fn arena_view(self) -> ArenaView {
        ArenaView {
            color: self.arena_color,
            width: self.arena_width as int,
            height: self.arena_height as int,
        }
    }

    /// The left paddle that the tunables describe.
    pub open spec fn left_paddle_view(self) -> PaddleView {
        PaddleView {
            color: self.lpaddle_color,
            x: self.paddle_offset as int,
            y: self.paddle_y(),
            width: self.paddle_width as int,
            height: self.paddle_height as int,
            speed: self.paddle_speed as int,
            vy: 0,
            score: 0,
        }
    }

    /// The right paddle that the tunables describe.
    pub open spec fn right_paddle_view(self) -> PaddleView {
        PaddleView {
            color: self.rpaddle_color,
            x: self.right_paddle_x(),
            y: self.paddle_y(),
            width: self.paddle_width as int,
            height: self.paddle_height as int,
            speed: self.paddle_speed as int,
            vy: 0,
            score: 0,
        }
    }

    /// `ball` is the ball that the tunables describe, launched from the
    /// middle of the arena along `heading` in the given directions: its
    /// vertical velocity is the speed times the sine of the heading, and its
    /// horizontal velocity is what Pythagoras leaves of the speed.
    pub open spec fn launches(
        self,
        ball: BallView,
        heading: HeadingView,
        upward: bool,
        leftward: bool,
    ) -> bool {
        &&& ball.color == self.ball_color
        &&& ball.x == quot(self.arena_width as int, 2)
        &&& ball.y == quot(self.arena_height as int, 2)
        &&& ball.diameter == self.ball_diameter
        &&& ball.speed == self.ball_speed
        &&& ball.max_paddle_bounce_angle == self.max_bounce_angle
        &&& ball.vy == if upward {
            -launch_speed(self.ball_speed as int, heading.sin)
        } else {
            launch_speed(self.ball_speed as int, heading.sin)
        }
        &&& is_floor_sqrt(
            magnitude(ball.vx),
            self.ball_speed * self.ball_speed - ball.vy * ball.vy,
        )
        &&& if leftward {
            ball.vx <= 0
        } else {
            ball.vx >= 0
        }
    }

    /// `game` is a first state that the tunables describe, with a ball
    /// launched at an angle for which `trig` gave the heading.
    pub open spec fn builds<F: Fn(u32) -> Heading>(self, game: GameView, trig: F) -> bool {
        &&& game.fps == self.fps
        &&& game.arena == self.arena_view()
        &&& game.lpaddle == self.left_paddle_view()
        &&& game.rpaddle == self.right_paddle_view()
        &&& !game.running
        &&& game.clock_ms == 0
        &&& exists|angle: u32, h: Heading, upward: bool, leftward: bool|
            {
                &&& angle <= self.max_launch_angle
                &&& call_ensures(trig, (angle,), h)
                &&& self.launches(game.ball, h@, upward, leftward)
            }
    }

    /// A builder with the standard tunables.
    pub fn new() -> (b: GameBuilder)
        ensures
            b == GameBuilder::standard(),
    {
        GameBuilder {
            arena_color: Color::rgb(0xff, 0xff, 0xff),
            arena_width: 480_000,
            arena_height: 320_000,
            fps: 40,
            ball_color: Color::rgb(0xff, 0xff, 0xff),
            ball_speed: 320_000,
            ball_diameter: 10_000,
            lpaddle_color: Color::rgb(0xff, 0xff, 0xff),
            rpaddle_color: Color::rgb(0xff, 0xff, 0xff),
            paddle_offset: 4_000,
            paddle_width: 10_000,
            paddle_height: 80_000,
            paddle_speed: 640_000,
            max_launch_angle: 785_398,
            max_bounce_angle: 261_799,
        }
    }

    /// Sets the extent of the arena.
    pub fn with_arena_dimensions(self, width: i32, height: i32) -> (b: GameBuilder)
        ensures
            b == (GameBuilder { arena_width: width, arena_height: height, ..self }),
    {
        GameBuilder { arena_width: width, arena_height: height, ..self }
    }

    /// Sets the colour of the arena.
    pub fn with_arena_color(self, r: u8, g: u8, b: u8) -> (builder: GameBuilder)
        ensures
            builder == (GameBuilder { arena_color: Color { r, g, b }, ..self }),
    {
        GameBuilder { arena_color: Color::rgb(r, g, b), ..self }
    }

    /// Sets the frame rate.
    pub fn with_fps(self, fps: u32) -> (b: GameBuilder)
        ensures
            b == (GameBuilder { fps, ..self }),
    {
        GameBuilder { fps, ..self }
    }

    /// Sets the colour of the ball.
    pub fn with_ball_color(self, r: u8, g: u8, b: u8) -> (builder: GameBuilder)
        ensures
            builder == (GameBuilder { ball_color: Color { r, g, b }, ..self }),
    {
        GameBuilder { ball_color: Color::rgb(r, g, b), ..self }
    }

    /// Sets the speed of the ball.
    pub fn with_ball_speed_per_sec(self, speed: i32) -> (b: GameBuilder)
        ensures
            b == (GameBuilder { ball_speed: speed, ..self }),
    {
        GameBuilder { ball_speed: speed, ..self }
    }

    /// Sets the diameter of the ball.
    pub fn with_ball_diameter(self, diameter: i32) -> (b: GameBuilder)
        ensures
            b == (GameBuilder { ball_diameter: diameter, ..self }),
    {
        GameBuilder { ball_diameter: diameter, ..self }
    }

    /// Sets the distance of each paddle from the wall behind it.
    pub fn with_paddle_offset(self, offset: i32) -> (b: GameBuilder)
        ensures
            b == (GameBuilder { paddle_offset: offset, ..self }),
    {
        GameBuilder { paddle_offset: offset, ..self }
    }

    /// Sets the width of both paddles.
    pub fn with_paddle_width(self, width: i32) -> (b: GameBuilder)
        ensures
            b == (GameBuilder { paddle_width: width, ..self }),
    {
        GameBuilder { paddle_width: width, ..self }
    }

    /// Sets the height of both paddles.
    pub fn with_paddle_height(self, height: i32) -> (b: GameBuilder)
        ensures
            b == (GameBuilder { paddle_height: height, ..self }),
    {
        GameBuilder { paddle_height: height, ..self }
    }

    /// Sets the speed of both paddles.
    pub fn with_paddle_speed_per_sec(self, speed: i32) -> (b: GameBuilder)
        ensures
            b == (GameBuilder { paddle_speed: speed, ..self }),
    {
        GameBuilder { paddle_speed: speed, ..self }
    }

    /// Sets the colour of the left paddle.
    pub fn with_left_paddle_color(self, r: u8, g: u8, b: u8) -> (builder: GameBuilder)
        ensures
            builder == (GameBuilder { lpaddle_color: Color { r, g, b }, ..self }),
    {
        GameBuilder { lpaddle_color: Color::rgb(r, g, b), ..self }
    }

    /// Sets the colour of the right paddle.
    pub fn with_right_paddle_color(self, r: u8, g: u8, b: u8) -> (builder: GameBuilder)
        ensures
            builder == (GameBuilder { rpaddle_color: Color { r, g, b }, ..self }),
    {
        GameBuilder { rpaddle_color: Color::rgb(r, g, b), ..self }
    }

    /// Sets the steepest angle at which the ball is launched.
    pub fn with_max_launch_angle_rads(self, max_launch_angle: u32) -> (b: GameBuilder)
        ensures
            b == (GameBuilder { max_launch_angle, ..self }),
    {
        GameBuilder { max_launch_angle, ..self }
    }

    /// Sets the steepest angle at which the ball leaves a paddle.
    pub fn with_max_bounce_angle_rads(self, max_bounce_angle: u32) -> (b: GameBuilder)
        ensures
            b == (GameBuilder { max_bounce_angle, ..self }),
    {
        GameBuilder { max_bounce_angle, ..self }
    }

    /// Checks the tunables: `Ok` where they describe a game, else their
    /// first fault.
    pub fn validate(&self) -> (r: Result<(), ConfigError>)
        ensures
            r is Ok <==> self.fault() is None,
            r matches Err(e) ==> self.fault() == Some(e),
    {
        if self.arena_width <= 0 || self.arena_height <= 0 {
            return Err(ConfigError::ArenaSize);
        }
        if self.fps == 0 {
            return Err(ConfigError::FrameRate);
        }
        if self.ball_diameter <= 0 {
            return Err(ConfigError::BallDiameter);
        }
        if self.ball_speed <= 0 {
            return Err(ConfigError::BallSpeed);
        }
        if self.paddle_width <= 0 || self.paddle_height <= 0 {
            return Err(ConfigError::PaddleSize);
        }
        if self.paddle_speed <= 0 {
            return Err(ConfigError::PaddleSpeed);
        }
        let x: i64 = self.arena_width as i64 - (self.paddle_offset as i64
            + self.paddle_width as i64);
        if x < i32::MIN as i64 || x > i32::MAX as i64 {
            return Err(ConfigError::PaddleOffset);
        }
        if self.max_launch_angle > QUARTER_TURN {
            return Err(ConfigError::LaunchAngle);
        }
        if self.max_bounce_angle > QUARTER_TURN {
            return Err(ConfigError::BounceAngle);
        }
        Ok(())
    }

    /// The arena, where its extent is positive.
    pub fn create_arena(&self) -> (r: Option<Arena>)
        ensures
            r.is_some() <==> self.arena_width > 0 && self.arena_height > 0,
            r matches Some(a) ==> a.wf() && a@ == self.arena_view(),
    {
        Arena::new(self.arena_color, self.arena_width, self.arena_height)
    }

    /// The ball, launched from the middle of the arena along `heading` in
    /// the given directions, where diameter, speed and steepest bounce are
    /// valid.
    pub fn launch_ball(&self, heading: &Heading, upward: bool, leftward: bool) -> (r: Option<Ball>)
        requires
            heading.wf(),
        ensures
            r.is_some() <==> self.ball_diameter > 0 && self.ball_speed > 0
                && self.max_bounce_angle <= QUARTER_TURN,
            r matches Some(b) ==> b.wf() && self.launches(b@, heading@, upward, leftward),
    {
        if self.ball_diameter <= 0 || self.ball_speed <= 0 || self.max_bounce_angle
            > QUARTER_TURN {
            return None;
        }
        let speed: i32 = self.ball_speed;
        proof {
            lemma_launch_within_speed(speed as int, heading@);
        }
        let across: i32 = launch(speed, heading.sin());
        assert(across * across <= speed * speed) by (nonlinear_arith)
            requires
                0 <= across <= speed,
        ;
        let rest: u64 = (square(speed) - square(across)) as u64;
        let along: u32 = isqrt(rest);
        assert(along <= speed) by (nonlinear_arith)
            requires
                along * along <= rest,
                rest <= speed * speed,
                speed > 0,
                along >= 0,
        ;
        let vy: i32 = if upward {
            -across
        } else {
            across
        };
        let vx: i32 = if leftward {
            -(along as i32)
        } else {
            along as i32
        };
        proof {
            assert((along + 1) * (along + 1) <= (along + 2) * (along + 2)) by (nonlinear_arith)
                requires
                    along >= 0,
            ;
            assert(across * across <= (across + 2) * (across + 2)) by (nonlinear_arith)
                requires
                    across >= 0,
            ;
            assert(keeps_speed(along as int, across as int, speed as int));
            lemma_turning_keeps_speed(along as int, across as int, speed as int);
            assert((-across) * (-across) == across * across) by (nonlinear_arith);
            assert((-along) * (-along) == along * along) by (nonlinear_arith);
        }
        Ball::new(
            self.ball_color,
            self.arena_width / 2,
            self.arena_height / 2,
            self.ball_diameter,
            speed,
            vx,
            vy,
            self.max_bounce_angle,
        )
    }

    /// The ball, launched at a random angle up to the steepest launch and in
    /// random directions. `trig` gives the heading that belongs to the angle.
    pub fn create_ball<F: Fn(u32) -> Heading>(&self, trig: F) -> (r: Option<Ball>)
        requires
            forall|angle: u32| angle <= QUARTER_TURN ==> call_requires(trig, (angle,)),
            forall|angle: u32, h: Heading| call_ensures(trig, (angle,), h) ==> h.wf(),
        ensures
            r.is_some() <==> self.ball_diameter > 0 && self.ball_speed > 0
                && self.max_bounce_angle <= QUARTER_TURN && self.max_launch_angle
                <= QUARTER_TURN,
            r matches Some(b) ==> b.wf() && exists|
                angle: u32,
                h: Heading,
                upward: bool,
                leftward: bool,
            |
                {
                    &&& angle <= self.max_launch_angle
                    &&& call_ensures(trig, (angle,), h)
                    &&& self.launches(b@, h@, upward, leftward)
                },
    {
        if self.max_launch_angle > QUARTER_TURN {
            return None;
        }
        let chance: Launch = Launch::draw(self.max_launch_angle);
        let heading: Heading = trig(chance.angle);
        self.launch_ball(&heading, chance.upward, chance.leftward)
    }

    /// The left paddle, where extent and speed are positive.
    pub fn create_left_paddle(&self) -> (r: Option<Paddle>)
        ensures
            r.is_some() <==> self.paddle_width > 0 && self.paddle_height > 0 && self.paddle_speed
                > 0,
            r matches Some(p) ==> p.wf() && p@ == self.left_paddle_view(),
    {
        let y: i64 = (self.arena_height as i64 - self.paddle_height as i64) / 2;
        Paddle::new(
            self.lpaddle_color,
            self.paddle_offset,
            y as i32,
            self.paddle_width,
            self.paddle_height,
            self.paddle_speed,
            0,
            0,
        )
    }

    /// The right paddle, where extent and speed are positive and its place
    /// is within the range of coordinates.
    pub fn create_right_paddle(&self) -> (r: Option<Paddle>)
        ensures
            r.is_some() <==> self.paddle_width > 0 && self.paddle_height > 0 && self.paddle_speed
                > 0 && i32::MIN <= self.right_paddle_x() <= i32::MAX,
            r matches Some(p) ==> p.wf() && p@ == self.right_paddle_view(),
    {
        let x: i64 = self.arena_width as i64 - (self.paddle_offset as i64
            + self.paddle_width as i64);
        if x < i32::MIN as i64 || x > i32::MAX as i64 {
            return None;
        }
        let y: i64 = (self.arena_height as i64 - self.paddle_height as i64) / 2;
        Paddle::new(
            self.rpaddle_color,
            x as i32,
            y as i32,
            self.paddle_width,
            self.paddle_height,
            self.paddle_speed,
            0,
            0,
        )
    }

    /// The first state of the game that the tunables describe, or their
    /// first fault.
    pub fn build<F: Fn(u32) -> Heading>(&self, trig: F) -> (r: Result<Game, ConfigError>)
        requires
            forall|angle: u32| angle <= QUARTER_TURN ==> call_requires(trig, (angle,)),
            forall|angle: u32, h: Heading| call_ensures(trig, (angle,), h) ==> h.wf(),
        ensures
            r is Ok <==> self.fault() is None,
            r matches Err(e) ==> self.fault() == Some(e),
            r matches Ok(game) ==> game.wf() && self.builds(game@, trig),
    {
        match self.validate() {
            Err(e) => Err(e),
            Ok(_) => {
                let arena: Arena = self.create_arena().unwrap();
                let ball: Ball = self.create_ball(trig).unwrap();
                let lpaddle: Paddle = self.create_left_paddle().unwrap();
                let rpaddle: Paddle = self.create_right_paddle().unwrap();
                Ok(Game::new(self.fps, arena, ball, lpaddle, rpaddle).unwrap())
            },
        }
    }
}

} // verus!
