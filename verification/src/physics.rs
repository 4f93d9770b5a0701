//! One frame of ball motion: straight-line travel, reflection off the walls
//! and the bounce off a paddle.
//!
//! The spec functions of this module say, over mathematical integers, where a
//! ball is after a frame. The functions of `resolver` compute the same in
//! wide machine integers; `laws` proves what follows from these definitions.
//!
//! A frame goes through four steps, in this order: reflection off the top or
//! bottom wall, the left paddle, the right paddle, reflection off a side
//! wall. At most one paddle is struck in a frame, and a ball that has left a
//! paddle is held against the side walls only.

use vstd::prelude::*;
use crate::arena::ArenaView;
use crate::ball::BallView;
use crate::heading::HeadingView;
use crate::paddle::PaddleView;
use crate::units::{clamp, magnitude, quot, sign, HEADING_SCALE, MS_PER_SECOND};

verus! {

/// The side of the arena on which a paddle stands.
#[derive(Clone, Copy, Debug, PartialEq, Eq, Structural)]
pub enum Side {
    Left,
    Right,
}

/// A paddle that the ball strikes in a frame, and the angle off the
/// horizontal at which the ball leaves it, in millionths of a radian.
#[derive(Clone, Copy, Debug, PartialEq, Eq, Structural)]
pub struct Contact {
    pub side: Side,
    pub angle: u32,
}

/// The distance covered in `dt_ms` milliseconds at `v` units per second.
pub open spec fn travel(v: int, dt_ms: int) -> int {
    quot(v * dt_ms, MS_PER_SECOND as int)
}

/// Where straight-line travel over `dt_ms` takes the left edge of the ball.
pub open spec fn proposed_x(ball: BallView, dt_ms: int) -> int {
    ball.x + travel(ball.vx, dt_ms)
}

/// Where straight-line travel over `dt_ms` takes the top edge of the ball.
pub open spec fn proposed_y(ball: BallView, dt_ms: int) -> int {
    ball.y + travel(ball.vy, dt_ms)
}

/// A box of the given size at `y` is above the top wall, or touches or
/// passes the bottom wall of an arena of the given height.
pub open spec fn meets_top_or_bottom(y: int, size: int, height: int) -> bool {
    y < 0 || y + size >= height
}

/// A box of the given size at `x` is beyond the left wall, or passes the
/// right wall of an arena of the given width.
pub open spec fn meets_side_wall(x: int, size: int, width: int) -> bool {
    x < 0 || x + size > width
}

/// The mirror image of `p` about the wall that it lies beyond: about `0`
/// for a negative `p`, else about the far wall, which keeps the overshoot.
pub open spec fn mirrored(p: int, size: int, extent: int) -> int {
    if p < 0 {
        -p
    } else {
        extent - (p + size - extent) - size
    }
}

/// Where a frame would take the ball if there were no paddles: the proposed
/// place after reflection off the top or bottom wall, and the vertical
/// velocity after it.
pub struct Approach {
    pub x: int,
    pub y: int,
    pub vy: int,
}

/// The approach of `ball` over `dt_ms`.
pub open spec fn approach(ball: BallView, arena: ArenaView, dt_ms: int) -> Approach {
    let y = proposed_y(ball, dt_ms);
    if meets_top_or_bottom(y, ball.diameter, arena.height) {
        Approach {
            x: proposed_x(ball, dt_ms),
            y: mirrored(y, ball.diameter, arena.height),
            vy: -ball.vy,
        }
    } else {
        Approach { x: proposed_x(ball, dt_ms), y, vy: ball.vy }
    }
}

/// The paddle on the given side.
pub open spec fn paddle_on(side: Side, lpaddle: PaddleView, rpaddle: PaddleView) -> PaddleView {
    match side {
        Side::Left => lpaddle,
        Side::Right => rpaddle,
    }
}

/// The `x` of the edge of `paddle` that faces the middle of the arena.
pub open spec fn plane(side: Side, paddle: PaddleView) -> int {
    match side {
        Side::Left => paddle.x + paddle.width,
        Side::Right => paddle.x,
    }
}

/// The left edge of the ball passes the plane of the left paddle on its way
/// from `ball.x` to `new_x`.
pub open spec fn crosses_left(ball: BallView, new_x: int, lpaddle: PaddleView) -> bool {
    new_x < plane(Side::Left, lpaddle) && ball.x >= plane(Side::Left, lpaddle)
}

/// The right edge of the ball passes the plane of the right paddle on its
/// way from `ball.x` to `new_x`.
pub open spec fn crosses_right(ball: BallView, new_x: int, rpaddle: PaddleView) -> bool {
    new_x + ball.diameter > plane(Side::Right, rpaddle) && ball.x + ball.diameter <= plane(
        Side::Right,
        rpaddle,
    )
}

/// The `y` at which the straight line from the place of `ball` to
/// `(new_x, new_y)` meets the vertical at `at_x`. Meaningful for
/// `new_x != ball.x`.
pub open spec fn bounce_y(ball: BallView, new_x: int, new_y: int, at_x: int) -> int {
    ball.y + quot((new_y - ball.y) * (at_x - ball.x), new_x - ball.x)
}

/// `y` lies on the face of `paddle`, its two ends counted.
pub open spec fn on_face(y: int, paddle: PaddleView) -> bool {
    paddle.y <= y <= paddle.y + paddle.height
}

/// The paddle that the ball strikes on its way to `(new_x, new_y)`, if any:
/// the one whose plane it crosses, where the crossing lies on its face.
pub open spec fn struck_side(
    ball: BallView,
    new_x: int,
    new_y: int,
    lpaddle: PaddleView,
    rpaddle: PaddleView,
) -> Option<Side> {
    if crosses_left(ball, new_x, lpaddle) {
        if on_face(bounce_y(ball, new_x, new_y, plane(Side::Left, lpaddle)), lpaddle) {
            Some(Side::Left)
        } else {
            None
        }
    } else if crosses_right(ball, new_x, rpaddle) {
        if on_face(bounce_y(ball, new_x, new_y, plane(Side::Right, rpaddle)), rpaddle) {
            Some(Side::Right)
        } else {
            None
        }
    } else {
        None
    }
}

/// The angle off the horizontal at which a ball leaves `paddle` after
/// striking it at `y`: the share of `max_angle` that the distance of `y`
/// from the middle of the face is of half the face.
pub open spec fn bounce_angle(y: int, paddle: PaddleView, max_angle: int) -> int {
    quot(magnitude(2 * paddle.y + paddle.height - 2 * y) * max_angle, paddle.height)
}

/// The part of the frame, in milliseconds, that is left once the ball has
/// reached the bounce point `(at_x, at_y)`: the share of `dt_ms` that the
/// vertical distance beyond the bounce point is of the whole vertical
/// distance. For a ball that does not move vertically the horizontal
/// distances take their place.
pub open spec fn residual_ms(
    ball: BallView,
    new_x: int,
    new_y: int,
    at_x: int,
    at_y: int,
    dt_ms: int,
) -> int {
    if new_y != ball.y {
        quot(dt_ms * (new_y - at_y), new_y - ball.y)
    } else {
        quot(dt_ms * (new_x - at_x), new_x - ball.x)
    }
}

/// The length of a velocity component after a bounce: `speed` times the
/// scaled cosine or sine `part`.
pub open spec fn launch_speed(speed: int, part: int) -> int {
    quot(speed * part, HEADING_SCALE as int)
}

/// The horizontal velocity after a bounce off the paddle on `side`: away
/// from that paddle.
pub open spec fn launch_vx(speed: int, heading: HeadingView, side: Side) -> int {
    match side {
        Side::Left => launch_speed(speed, heading.cos),
        Side::Right => -launch_speed(speed, heading.cos),
    }
}

/// The vertical velocity after a bounce: in the vertical direction that the
/// ball had before it.
pub open spec fn launch_vy(speed: int, heading: HeadingView, vy_before: int) -> int {
    sign(vy_before) * launch_speed(speed, heading.sin)
}

/// The ball at the end of a frame that would leave it at `(x, y)` with
/// velocity `(vx, vy)` if there were no side walls: reflected off the side
/// wall that `x` lies beyond, with both coordinates brought into range.
pub open spec fn settled(
    ball: BallView,
    arena: ArenaView,
    x: int,
    y: int,
    vx: int,
    vy: int,
) -> BallView {
    if meets_side_wall(x, ball.diameter, arena.width) {
        ball.moved(
            clamp(mirrored(x, ball.diameter, arena.width), i32::MIN as int, i32::MAX as int),
            clamp(y, i32::MIN as int, i32::MAX as int),
            -vx,
            vy,
        )
    } else {
        ball.moved(
            clamp(x, i32::MIN as int, i32::MAX as int),
            clamp(y, i32::MIN as int, i32::MAX as int),
            vx,
            vy,
        )
    }
}

/// The ball after a frame in which it strikes no paddle.
pub open spec fn coast(ball: BallView, arena: ArenaView, dt_ms: int) -> BallView {
    let a = approach(ball, arena, dt_ms);
    settled(ball, arena, a.x, a.y, ball.vx, a.vy)
}

/// Place and velocity of a ball that has left a paddle, before the side
/// walls are looked at.
pub struct Flight {
    pub x: int,
    pub y: int,
    pub vx: int,
    pub vy: int,
}

/// The flight of a ball that strikes `paddle` on `side` and leaves it along
/// `heading`: it travels from the bounce point, at its new velocity, for
/// what is left of the frame. On either side the bounce point is where the
/// line of the ball's top-left corner meets the plane of the paddle, and it
/// is the top-left corner that is put there.
pub open spec fn bounce(
    ball: BallView,
    arena: ArenaView,
    paddle: PaddleView,
    side: Side,
    dt_ms: int,
    heading: HeadingView,
) -> Flight {
    let a = approach(ball, arena, dt_ms);
    let at_x = plane(side, paddle);
    let at_y = bounce_y(ball, a.x, a.y, at_x);
    let rest = residual_ms(ball, a.x, a.y, at_x, at_y, dt_ms);
    let vx = launch_vx(ball.speed, heading, side);
    let vy = launch_vy(ball.speed, heading, a.vy);
    Flight { x: at_x + travel(vx, rest), y: at_y + travel(vy, rest), vx, vy }
}

/// The ball after a frame in which it strikes `paddle` on `side` and leaves
/// it along `heading`.
pub open spec fn rebound(
    ball: BallView,
    arena: ArenaView,
    paddle: PaddleView,
    side: Side,
    dt_ms: int,
    heading: HeadingView,
) -> BallView {
    let f = bounce(ball, arena, paddle, side, dt_ms, heading);
    settled(ball, arena, f.x, f.y, f.vx, f.vy)
}

/// The paddle that the ball strikes in a frame of `dt_ms`, if any.
pub open spec fn contact_side(
    ball: BallView,
    arena: ArenaView,
    lpaddle: PaddleView,
    rpaddle: PaddleView,
    dt_ms: int,
) -> Option<Side> {
    let a = approach(ball, arena, dt_ms);
    struck_side(ball, a.x, a.y, lpaddle, rpaddle)
}

/// The angle at which the ball leaves the paddle on `side` in a frame of
/// `dt_ms` in which it strikes that paddle.
pub open spec fn contact_angle(
    ball: BallView,
    arena: ArenaView,
    paddle: PaddleView,
    side: Side,
    dt_ms: int,
) -> int {
    let a = approach(ball, arena, dt_ms);
    let at_y = bounce_y(ball, a.x, a.y, plane(side, paddle));
    bounce_angle(at_y, paddle, ball.max_paddle_bounce_angle)
}

/// The ball after a frame of `dt_ms`, where `heading` is the direction that
/// belongs to the angle of the bounce, if there is one.
pub open spec fn frame(
    ball: BallView,
    arena: ArenaView,
    lpaddle: PaddleView,
    rpaddle: PaddleView,
    dt_ms: int,
    heading: HeadingView,
) -> BallView {
    match contact_side(ball, arena, lpaddle, rpaddle, dt_ms) {
        None => coast(ball, arena, dt_ms),
        Some(side) => rebound(
            ball,
            arena,
            paddle_on(side, lpaddle, rpaddle),
            side,
            dt_ms,
            heading,
        ),
    }
}

} // verus!
