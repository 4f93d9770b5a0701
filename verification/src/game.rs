//! The state of one game and what a frame does to it.
//!
//! The frame loop itself runs outside this library: it reads the clock,
//! polls for an event, hands both to the game, draws the scene that comes
//! back and sleeps for the delay that `cap_fps` names.

use vstd::prelude::*;
use crate::arena::{Arena, ArenaView};
use crate::ball::{Ball, BallView};
use crate::heading::Heading;
use crate::paddle::{Paddle, PaddleView};
use crate::physics::{coast, contact_angle, contact_side, paddle_on, rebound};
use crate::resolver::advance;
use crate::scene::{Disc, Scene, Tile};
use crate::units::{
    clamp, div_toward_zero, quot, MS_PER_SECOND, QUARTER_TURN, UNITS_PER_PIXEL,
};

verus! {

/// What the input source reports.
#[derive(Clone, Copy, Debug, PartialEq, Eq, Structural)]
pub enum Event {
    /// The player asks to end the game.
    Quit,
    /// The pointer moved to the row `y`, in pixels from the top.
    PointerMoved { y: i32 },
}

/// What a game is to the contracts.
pub struct GameView {
    pub fps: int,
    pub arena: ArenaView,
    pub ball: BallView,
    pub lpaddle: PaddleView,
    pub rpaddle: PaddleView,
    pub running: bool,
    pub clock_ms: int,
}

impl GameView {
    /// Every part is valid and the frame rate is positive.
    pub open spec fn wf(self) -> bool {
        &&& self.fps > 0
        &&& self.arena.wf()
        &&& self.ball.wf()
        &&& self.lpaddle.wf()
        &&& self.rpaddle.wf()
    }
}

/// The top edge of a paddle of the given height that follows a pointer at
/// `pointer`, in length units, inside an arena of the given height: the
/// pointer itself, held back at the top wall and, below that, at the place
/// where the paddle touches the bottom wall.
pub open spec fn paddle_top(pointer: int, paddle_height: int, arena_height: int) -> int {
    if pointer < 0 {
        0
    } else if pointer + paddle_height > arena_height {
        arena_height - paddle_height
    } else {
        pointer
    }
}

/// The game after an event, or after a poll that found none.
pub open spec fn after_input(game: GameView, event: Option<Event>) -> GameView {
    match event {
        Some(Event::Quit) => GameView { running: false, ..game },
        Some(Event::PointerMoved { y }) => GameView {
            lpaddle: game.lpaddle.at(
                paddle_top(y * UNITS_PER_PIXEL, game.lpaddle.height, game.arena.height),
            ),
            ..game
        },
        None => game,
    }
}

/// `after` is `before` with the ball moved on by one frame of `dt_ms`, the
/// heading of a bounce being one that `trig` gave for the bounce angle.
pub open spec fn ball_advanced<F: Fn(u32) -> Heading>(
    before: GameView,
    after: GameView,
    dt_ms: int,
    trig: F,
) -> bool {
    &&& after == (GameView { ball: after.ball, ..before })
    &&& match contact_side(before.ball, before.arena, before.lpaddle, before.rpaddle, dt_ms) {
        None => after.ball == coast(before.ball, before.arena, dt_ms),
        Some(side) => exists|h: Heading|
            {
                &&& call_ensures(
                    trig,
                    (contact_angle(
                        before.ball,
                        before.arena,
                        paddle_on(side, before.lpaddle, before.rpaddle),
                        side,
                        dt_ms,
                    ) as u32,),
                    h,
                )
                &&& after.ball == rebound(
                    before.ball,
                    before.arena,
                    paddle_on(side, before.lpaddle, before.rpaddle),
                    side,
                    dt_ms,
                    h@,
                )
            },
    }
}

/// A length in whole pixels, rounded toward zero.
pub open spec fn to_pixels(units: int) -> int {
    quot(units, UNITS_PER_PIXEL as int)
}

/// `tile` covers `paddle`, in whole pixels.
pub open spec fn tile_shows(tile: Tile, paddle: PaddleView) -> bool {
    &&& tile.x == to_pixels(paddle.x)
    &&& tile.y == to_pixels(paddle.y)
    &&& tile.width == to_pixels(paddle.width)
    &&& tile.height == to_pixels(paddle.height)
    &&& tile.color == paddle.color
}

/// `disc` covers `ball`, in whole pixels: its centre is the middle of the
/// bounding box and its radius half the diameter, each limited to the range
/// of a 16-bit coordinate.
pub open spec fn disc_shows(disc: Disc, ball: BallView) -> bool {
    &&& disc.cx == clamp(
        quot(2 * ball.x + ball.diameter, 2 * UNITS_PER_PIXEL),
        i16::MIN as int,
        i16::MAX as int,
    )
    &&& disc.cy == clamp(
        quot(2 * ball.y + ball.diameter, 2 * UNITS_PER_PIXEL),
        i16::MIN as int,
        i16::MAX as int,
    )
    &&& disc.radius == clamp(
        quot(ball.diameter, 2 * UNITS_PER_PIXEL),
        i16::MIN as int,
        i16::MAX as int,
    )
    &&& disc.color == ball.color
}

/// `scene` is what `game` looks like.
pub open spec fn scene_shows(scene: Scene, game: GameView) -> bool {
    &&& scene.background == game.arena.color
    &&& disc_shows(scene.ball, game.ball)
    &&& tile_shows(scene.left, game.lpaddle)
    &&& tile_shows(scene.right, game.rpaddle)
}

/// The time between two readings of a clock that counts milliseconds: zero
/// where the clock went backwards, and no more than fits 32 bits.
pub open spec fn elapsed_ms(last_ms: int, now_ms: int) -> int {
    clamp(now_ms - last_ms, 0, u32::MAX as int)
}

/// How long to wait, in milliseconds, after a frame that took `took_ms`, so
/// that no more than `fps` frames run in a second.
pub open spec fn frame_delay_ms(fps: int, took_ms: int) -> int {
    if MS_PER_SECOND as int / fps > took_ms {
        MS_PER_SECOND as int / fps - took_ms
    } else {
        0
    }
}

/// One game: the arena, the ball, the two paddles, the frame rate and the
/// state of the frame loop.
#[derive(Clone, Copy, Debug)]
pub struct Game {
    fps: u32,
    arena: Arena,
    ball: Ball,
    lpaddle: Paddle,
    rpaddle: Paddle,
    running: bool,
    clock_ms: u64,
}

impl View for Game {
    type V = GameView;

    closed spec fn view(&self) -> GameView {
        GameView {
            fps: self.fps as int,
            arena: self.arena@,
            ball: self.ball@,
            lpaddle: self.lpaddle@,
            rpaddle: self.rpaddle@,
            running: self.running,
            clock_ms: self.clock_ms as int,
        }
    }
}

/// A paddle in whole pixels.
fn tile_of(paddle: &Paddle) -> (tile: Tile)
    requires
        paddle.wf(),
    ensures
        tile_shows(tile, paddle@),
{
    Tile {
        x: paddle.x() / UNITS_PER_PIXEL,
        y: paddle.y() / UNITS_PER_PIXEL,
        width: (paddle.width() / UNITS_PER_PIXEL) as u32,
        height: (paddle.height() / UNITS_PER_PIXEL) as u32,
        color: paddle.color(),
    }
}

/// A length in whole pixels, limited to 16 bits.
fn to_short(units: i128, per_pixel: i128) -> (r: i16)
    requires
        per_pixel > 0,
        units > i128::MIN,
    ensures
        r == clamp(quot(units as int, per_pixel as int), i16::MIN as int, i16::MAX as int),
{
    let q: i128 = div_toward_zero(units, per_pixel);
    if q < i16::MIN as i128 {
        i16::MIN
    } else if q > i16::MAX as i128 {
        i16::MAX
    } else {
        q as i16
    }
}

impl Game {
    /// Validity of the value: that of its view.
    pub open spec fn wf(&self) -> bool {
        self@.wf()
    }

    /// A game of the given parts that is not yet running, where the frame
    /// rate is positive; `None` for a frame rate of zero.
    pub fn new(
        fps: u32,
        arena: Arena,
        ball: Ball,
        lpaddle: Paddle,
        rpaddle: Paddle,
    ) -> (r: Option<Game>)
        requires
            arena.wf(),
            ball.wf(),
            lpaddle.wf(),
            rpaddle.wf(),
        ensures
            r.is_some() <==> fps > 0,
            r matches Some(g) ==> g.wf() && g@ == (GameView {
                fps: fps as int,
                arena: arena@,
                ball: ball@,
                lpaddle: lpaddle@,
                rpaddle: rpaddle@,
                running: false,
                clock_ms: 0,
            }),
    {
        if fps > 0 {
            Some(Game { fps, arena, ball, lpaddle, rpaddle, running: false, clock_ms: 0 })
        } else {
            None
        }
    }

    /// Starts the frame loop at the clock reading `now_ms`.
    pub fn start(&mut self, now_ms: u64)
        ensures
            final(self)@ == (GameView { running: true, clock_ms: now_ms as int, ..old(self)@ }),
    {
        self.running = true;
        self.clock_ms = now_ms;
    }

    /// Takes the clock reading `now_ms` at the top of a frame and returns the
    /// milliseconds since the reading before it.
    pub fn tick(&mut self, now_ms: u64) -> (dt_ms: u32)
        ensures
            dt_ms == elapsed_ms(old(self)@.clock_ms, now_ms as int),
            final(self)@ == (GameView { clock_ms: now_ms as int, ..old(self)@ }),
    {
        let last: u64 = self.clock_ms;
        self.clock_ms = now_ms;
        if now_ms <= last {
            0
        } else if now_ms - last > u32::MAX as u64 {
            u32::MAX
        } else {
            (now_ms - last) as u32
        }
    }

    /// Acts on what the input source reported: a request to quit ends the
    /// frame loop, a pointer movement places the left paddle.
    pub fn handle_input(&mut self, event: Option<Event>)
        requires
            old(self).wf(),
        ensures
            final(self).wf(),
            final(self)@ == after_input(old(self)@, event),
    {
        match event {
            Some(Event::Quit) => {
                self.running = false;
            },
            Some(Event::PointerMoved { y }) => {
                let pointer: i64 = y as i64 * UNITS_PER_PIXEL as i64;
                let height: i64 = self.lpaddle.height() as i64;
                let floor: i64 = self.arena.height() as i64;
                let top: i64 = if pointer < 0 {
                    0
                } else if pointer + height > floor {
                    floor - height
                } else {
                    pointer
                };
                self.lpaddle = self.lpaddle.at(top as i32);
            },
            None => {},
        }
    }

    /// Moves the ball on by one frame of `dt_ms` milliseconds: straight
    /// travel, reflection off the walls and the bounce off a paddle. `trig`
    /// gives the heading that belongs to an angle.
    pub fn update_ball_position<F: Fn(u32) -> Heading>(&mut self, dt_ms: u32, trig: F)
        requires
            old(self).wf(),
            forall|angle: u32| angle <= QUARTER_TURN ==> call_requires(trig, (angle,)),
            forall|angle: u32, h: Heading| call_ensures(trig, (angle,), h) ==> h.wf(),
        ensures
            final(self).wf(),
            ball_advanced(old(self)@, final(self)@, dt_ms as int, trig),
    {
        self.ball = advance(&self.ball, &self.arena, &self.lpaddle, &self.rpaddle, dt_ms, trig);
    }

    /// What the game looks like, in whole pixels.
    pub fn redraw(&self) -> (scene: Scene)
        requires
            self.wf(),
        ensures
            scene_shows(scene, self@),
    {
        let ball: &Ball = &self.ball;
        let both: i128 = 2 * UNITS_PER_PIXEL as i128;
        let size: i128 = ball.diameter() as i128;
        Scene {
            background: self.arena.color(),
            ball: Disc {
                cx: to_short(2 * (ball.x() as i128) + size, both),
                cy: to_short(2 * (ball.y() as i128) + size, both),
                radius: to_short(size, both),
                color: ball.color(),
            },
            left: tile_of(&self.lpaddle),
            right: tile_of(&self.rpaddle),
        }
    }

    /// One frame: the input is handled, the ball moves on, and the scene to
    /// draw comes back.
    pub fn update<F: Fn(u32) -> Heading>(
        &mut self,
        dt_ms: u32,
        event: Option<Event>,
        trig: F,
    ) -> (scene: Scene)
        requires
            old(self).wf(),
            forall|angle: u32| angle <= QUARTER_TURN ==> call_requires(trig, (angle,)),
            forall|angle: u32, h: Heading| call_ensures(trig, (angle,), h) ==> h.wf(),
        ensures
            final(self).wf(),
            ball_advanced(after_input(old(self)@, event), final(self)@, dt_ms as int, trig),
            scene_shows(scene, final(self)@),
    {
        self.handle_input(event);
        self.update_ball_position(dt_ms, trig);
        self.redraw()
    }

    /// How long the frame loop is to sleep, in milliseconds, after a frame
    /// that took `took_ms`, so as not to run faster than the frame rate.
    pub fn cap_fps(&self, took_ms: u64) -> (delay_ms: u32)
        requires
            self.wf(),
        ensures
            delay_ms == frame_delay_ms(self@.fps, took_ms as int),
    {
        let budget: u64 = MS_PER_SECOND as u64 / self.fps as u64;
        if budget > took_ms {
            (budget - took_ms) as u32
        } else {
            0
        }
    }

    /// Whether the frame loop is to go on.
    pub fn is_running(&self) -> (r: bool)
        ensures
            r == self@.running,
    {
        self.running
    }

    /// The frames per second that the loop is held to.
    pub fn fps(&self) -> (r: u32)
        ensures
            r == self@.fps,
    {
        self.fps
    }

    /// The arena.
    pub fn arena(&self) -> (r: &Arena)
        ensures
            r@ == self@.arena,
    {
        &self.arena
    }

    /// The ball.
    pub fn ball(&self) -> (r: &Ball)
        ensures
            r@ == self@.ball,
    {
        &self.ball
    }

    /// The left paddle.
    pub fn lpaddle(&self) -> (r: &Paddle)
        ensures
            r@ == self@.lpaddle,
    {
        &self.lpaddle
    }

    /// The right paddle.
    pub fn rpaddle(&self) -> (r: &Paddle)
        ensures
            r@ == self@.rpaddle,
    {
        &self.rpaddle
    }
}

} // verus!
