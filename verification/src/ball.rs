//! The ball: a bounding box that moves at a fixed speed.

use vstd::prelude::*;
use crate::scene::Color;
use crate::units::{magnitude, square, HEADING_SCALE, QUARTER_TURN};

verus! {

/// What a ball is to the contracts. `x` and `y` are the top-left corner of its
/// bounding box; `vx` and `vy` are length units per second.
pub struct BallView {
    pub color: Color,
    pub x: int,
    pub y: int,
    pub diameter: int,
    pub speed: int,
    pub vx: int,
    pub vy: int,
    pub max_paddle_bounce_angle: int,
}

/// The velocity `(vx, vy)` is of length `speed`, as nearly as whole numbers
/// allow: it is no longer, and it would be longer if each of its components
/// were two units farther from zero.
pub open spec fn keeps_speed(vx: int, vy: int, speed: int) -> bool {
    let longer_x = magnitude(vx) + 2;
    let longer_y = magnitude(vy) + 2;
    &&& vx * vx + vy * vy <= speed * speed
    &&& speed * speed < longer_x * longer_x + longer_y * longer_y
}

impl BallView {
    /// Diameter and speed are positive, the velocity is of the length of the
    /// speed, and the steepest bounce stays short of a quarter turn.
    pub open spec fn wf(self) -> bool {
        &&& self.diameter > 0
        &&& self.speed > 0
        &&& keeps_speed(self.vx, self.vy, self.speed)
        &&& 0 <= self.max_paddle_bounce_angle <= QUARTER_TURN
    }

    /// The same ball at another place and with another velocity.
    pub open spec fn moved(self, x: int, y: int, vx: int, vy: int) -> BallView {
        BallView { x, y, vx, vy, ..self }
    }
}

/// The ball of one game.
#[derive(Clone, Copy, Debug)]
pub struct Ball {
    color: Color,
    x: i32,
    y: i32,
    diameter: i32,
    speed: i32,
    vx: i32,
    vy: i32,
    max_paddle_bounce_angle: u32,
}

impl View for Ball {
    type V = BallView;

    closed spec fn view(&self) -> BallView {
        BallView {
            color: self.color,
            x: self.x as int,
            y: self.y as int,
            diameter: self.diameter as int,
            speed: self.speed as int,
            vx: self.vx as int,
            vy: self.vy as int,
            max_paddle_bounce_angle: self.max_paddle_bounce_angle as int,
        }
    }
}

/// A velocity that is no faster than `speed` has no component beyond it.
pub proof fn lemma_components_within_speed(vx: int, vy: int, speed: int)
    requires
        speed >= 0,
        vx * vx + vy * vy <= speed * speed,
    ensures
        -speed <= vx <= speed,
        -speed <= vy <= speed,
{
    assert(-speed <= vx <= speed && -speed <= vy <= speed) by (nonlinear_arith)
        requires
            speed >= 0,
            vx * vx + vy * vy <= speed * speed,
    ;
}

/// Turning a velocity about along either axis leaves its length as it is.
pub proof fn lemma_turning_keeps_speed(vx: int, vy: int, speed: int)
    requires
        keeps_speed(vx, vy, speed),
    ensures
        keeps_speed(-vx, vy, speed),
        keeps_speed(vx, -vy, speed),
        keeps_speed(-vx, -vy, speed),
{
    assert((-vx) * (-vx) == vx * vx) by (nonlinear_arith);
    assert((-vy) * (-vy) == vy * vy) by (nonlinear_arith);
    assert(magnitude(-vx) == magnitude(vx));
    assert(magnitude(-vy) == magnitude(vy));
}

impl Ball {
    /// Validity of the value: that of its view.
    pub open spec fn wf(&self) -> bool {
        self@.wf()
    }

    /// A ball with the given fields, where they describe a valid ball;
    /// `None` where they do not.
    pub fn new(
        color: Color,
        x: i32,
        y: i32,
        diameter: i32,
        speed: i32,
        vx: i32,
        vy: i32,
        max_paddle_bounce_angle: u32,
    ) -> (r: Option<Ball>)
        ensures
            r.is_some() <==> (BallView {
                color,
                x: x as int,
                y: y as int,
                diameter: diameter as int,
                speed: speed as int,
                vx: vx as int,
                vy: vy as int,
                max_paddle_bounce_angle: max_paddle_bounce_angle as int,
            }).wf(),
            r matches Some(b) ==> b.wf() && b@ == (BallView {
                color,
                x: x as int,
                y: y as int,
                diameter: diameter as int,
                speed: speed as int,
                vx: vx as int,
                vy: vy as int,
                max_paddle_bounce_angle: max_paddle_bounce_angle as int,
            }),
    {
        if diameter > 0 && speed > 0 && max_paddle_bounce_angle <= QUARTER_TURN {
            let length: i128 = square(vx) as i128 + square(vy) as i128;
            // The squared length of the velocity with both components two
            // units farther from zero.
            let ax: i128 = if vx < 0 { -(vx as i128) } else { vx as i128 };
            let ay: i128 = if vy < 0 { -(vy as i128) } else { vy as i128 };
            assert((ax + 2) * (ax + 2) == ax * ax + 4 * ax + 4 && ax * ax == vx * vx)
                by (nonlinear_arith)
                requires
                    ax == vx || ax == -vx,
            ;
            assert((ay + 2) * (ay + 2) == ay * ay + 4 * ay + 4 && ay * ay == vy * vy)
                by (nonlinear_arith)
                requires
                    ay == vy || ay == -vy,
            ;
            let longer: i128 = length + 4 * ax + 4 * ay + 8;
            let full: i128 = square(speed) as i128;
            if length <= full && full < longer {
                return Some(
                    Ball { color, x, y, diameter, speed, vx, vy, max_paddle_bounce_angle },
                );
            }
        }
        None
    }

    /// Every field of a stored ball is within the range of its machine type,
    /// and a valid ball's velocity can be turned about without leaving it.
    pub proof fn lemma_in_range(&self)
        ensures
            i32::MIN <= self@.x <= i32::MAX,
            i32::MIN <= self@.y <= i32::MAX,
            i32::MIN <= self@.diameter <= i32::MAX,
            i32::MIN <= self@.speed <= i32::MAX,
            i32::MIN <= self@.vx <= i32::MAX,
            i32::MIN <= self@.vy <= i32::MAX,
            0 <= self@.max_paddle_bounce_angle <= u32::MAX,
            self.wf() ==> -i32::MAX <= self@.vx && -i32::MAX <= self@.vy,
            self.wf() ==> 4 * self@.speed <= HEADING_SCALE,
    {
        if self.wf() {
            lemma_components_within_speed(self@.vx, self@.vy, self@.speed);
        }
    }

    /// The same ball at another place and with another velocity.
    pub(crate) fn moved(&self, x: i32, y: i32, vx: i32, vy: i32) -> (b: Ball)
        requires
            self.wf(),
            keeps_speed(vx as int, vy as int, self@.speed),
        ensures
            b.wf(),
            b@ == self@.moved(x as int, y as int, vx as int, vy as int),
    {
        Ball { x, y, vx, vy, ..*self }
    }

    /// The colour.
    pub fn color(&self) -> (c: Color)
        ensures
            c == self@.color,
    {
        self.color
    }

    /// The left edge of the bounding box.
    pub fn x(&self) -> (v: i32)
        ensures
            v == self@.x,
    {
        self.x
    }

    /// The top edge of the bounding box.
    pub fn y(&self) -> (v: i32)
        ensures
            v == self@.y,
    {
        self.y
    }

    /// The diameter.
    pub fn diameter(&self) -> (v: i32)
        ensures
            v == self@.diameter,
    {
        self.diameter
    }

    /// The speed: the length that the velocity may not exceed.
    pub fn speed(&self) -> (v: i32)
        ensures
            v == self@.speed,
    {
        self.speed
    }

    /// The horizontal velocity.
    pub fn vx(&self) -> (v: i32)
        ensures
            v == self@.vx,
    {
        self.vx
    }

    /// The vertical velocity.
    pub fn vy(&self) -> (v: i32)
        ensures
            v == self@.vy,
    {
        self.vy
    }

    /// The angle off the horizontal at which the ball leaves the very edge of
    /// a paddle.
    pub fn max_paddle_bounce_angle(&self) -> (v: u32)
        ensures
            v == self@.max_paddle_bounce_angle,
    {
        self.max_paddle_bounce_angle
    }
}

} // verus!
