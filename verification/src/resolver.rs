//! The executable motion integrator and collision resolver.

use vstd::prelude::*;
use crate::arena::Arena;
use crate::ball::{keeps_speed, lemma_components_within_speed, lemma_turning_keeps_speed, Ball};
use crate::heading::{Heading, HeadingView};
use crate::paddle::Paddle;
use crate::physics::{
    approach, bounce_angle, bounce_y, coast, contact_angle, contact_side, frame, launch_speed,
    on_face, paddle_on, plane, proposed_x, proposed_y, rebound, residual_ms, settled,
    struck_side, travel, Contact, Side,
};
use crate::units::{
    lemma_product_bound, lemma_quot_bounds, lemma_quot_le, magnitude, mul_div, saturate,
    HEADING_SCALE, MS_PER_SECOND, QUARTER_TURN,
};

verus! {

// How far from zero the intermediate values of a frame can lie. The parts of
// a game hold 32-bit numbers; the bounds below follow from that and keep
// every step of the computation within 128 bits.

/// Bound of every coordinate, extent and velocity of a stored part: two to
/// the power of 31.
const PART_REACH: i128 = 0x8000_0000;

/// Bound of a frame's length, of the plane of a paddle and of every point on
/// the face of a paddle: two to the power of 32.
const FACE_REACH: i128 = 0x1_0000_0000;

/// Bound of the distance of straight travel in one frame: two to the power
/// of 54.
const TRAVEL_REACH: i128 = 0x40_0000_0000_0000;

/// Bound of a proposed coordinate: two to the power of 55.
const PROPOSAL_REACH: i128 = 0x80_0000_0000_0000;

/// Bound of a proposed coordinate after reflection off a wall: two to the
/// power of 56.
const APPROACH_REACH: i128 = 0x100_0000_0000_0000;

/// Bound of what is left of a frame at a bounce point: two to the power of
/// 89.
const REST_REACH: i128 = 0x200_0000_0000_0000_0000_0000;

/// Bound of a coordinate after a bounce, before the side walls are looked
/// at: two to the power of 124.
const FLIGHT_REACH: i128 = 0x1000_0000_0000_0000_0000_0000_0000_0000;

/// Where a frame would take the ball if there were no paddles.
struct Reach {
    x: i128,
    y: i128,
    vy: i32,
}

/// The point at which the ball meets the plane of a paddle.
struct Strike {
    side: Side,
    at_x: i128,
    at_y: i128,
}

/// The coordinate `p` after straight-line travel at `v` over `dt_ms`.
fn propose(p: i32, v: i32, dt_ms: u32) -> (r: i128)
    ensures
        r == p + travel(v as int, dt_ms as int),
        magnitude(r as int) <= PROPOSAL_REACH,
{
    proof {
        lemma_product_bound(v as int, dt_ms as int, PART_REACH as int, FACE_REACH as int);
        lemma_quot_le(v * dt_ms, MS_PER_SECOND as int, TRAVEL_REACH as int);
    }
    p as i128 + mul_div(v as i128, dt_ms as i128, MS_PER_SECOND as i128)
}

/// The motion integrator: the place that straight-line travel over `dt_ms`
/// milliseconds proposes for the ball, walls and paddles left aside.
pub fn integrate(ball: &Ball, dt_ms: u32) -> (p: (i64, i64))
    ensures
        p.0 == proposed_x(ball@, dt_ms as int),
        p.1 == proposed_y(ball@, dt_ms as int),
{
    let x: i128 = propose(ball.x(), ball.vx(), dt_ms);
    let y: i128 = propose(ball.y(), ball.vy(), dt_ms);
    (x as i64, y as i64)
}

/// The proposed place after reflection off the top or bottom wall.
fn approach_of(ball: &Ball, arena: &Arena, dt_ms: u32) -> (a: Reach)
    requires
        ball.wf(),
    ensures
        a.x == approach(ball@, arena@, dt_ms as int).x,
        a.y == approach(ball@, arena@, dt_ms as int).y,
        a.vy == approach(ball@, arena@, dt_ms as int).vy,
        keeps_speed(ball@.vx, a.vy as int, ball@.speed),
        magnitude(a.x as int) <= PROPOSAL_REACH,
        magnitude(a.y as int) <= APPROACH_REACH,
{
    let x: i128 = propose(ball.x(), ball.vx(), dt_ms);
    let y: i128 = propose(ball.y(), ball.vy(), dt_ms);
    let size: i128 = ball.diameter() as i128;
    let height: i128 = arena.height() as i128;
    let vy: i32 = ball.vy();
    proof {
        ball.lemma_in_range();
        lemma_turning_keeps_speed(ball@.vx, ball@.vy, ball@.speed);
    }
    if y < 0 {
        Reach { x, y: -y, vy: -vy }
    } else if y + size >= height {
        Reach { x, y: height - (y + size - height) - size, vy: -vy }
    } else {
        Reach { x, y, vy }
    }
}

/// The `y` at which the line from the ball to `(new_x, new_y)` meets the
/// vertical at `at_x`.
fn crossing_y(ball: &Ball, new_x: i128, new_y: i128, at_x: i128) -> (y: i128)
    requires
        new_x != ball@.x,
        magnitude(new_x as int) <= PROPOSAL_REACH,
        magnitude(new_y as int) <= APPROACH_REACH,
        magnitude(at_x as int) <= FACE_REACH,
    ensures
        y == bounce_y(ball@, new_x as int, new_y as int, at_x as int),
{
    let rise: i128 = new_y - ball.y() as i128;
    let reach: i128 = at_x - ball.x() as i128;
    let run: i128 = new_x - ball.x() as i128;
    proof {
        lemma_product_bound(
            rise as int,
            reach as int,
            2 * APPROACH_REACH as int,
            2 * FACE_REACH as int,
        );
    }
    ball.y() as i128 + mul_div(rise, reach, run)
}

/// Whether `y` lies on the face of `paddle`.
fn is_on_face(y: i128, paddle: &Paddle) -> (r: bool)
    ensures
        r == on_face(y as int, paddle@),
{
    paddle.y() as i128 <= y && y <= paddle.y() as i128 + paddle.height() as i128
}

/// The paddle that the ball strikes on its way to the approach `a`, with
/// the bounce point.
fn find_strike(ball: &Ball, a: &Reach, lpaddle: &Paddle, rpaddle: &Paddle) -> (r: Option<Strike>)
    requires
        magnitude(a.x as int) <= PROPOSAL_REACH,
        magnitude(a.y as int) <= APPROACH_REACH,
    ensures
        r is None <==> struck_side(ball@, a.x as int, a.y as int, lpaddle@, rpaddle@) is None,
        r matches Some(s) ==> {
            &&& struck_side(ball@, a.x as int, a.y as int, lpaddle@, rpaddle@) == Some(s.side)
            &&& s.at_x == plane(s.side, paddle_on(s.side, lpaddle@, rpaddle@))
            &&& s.at_y == bounce_y(ball@, a.x as int, a.y as int, s.at_x as int)
            &&& on_face(s.at_y as int, paddle_on(s.side, lpaddle@, rpaddle@))
            &&& a.x != ball@.x
            &&& magnitude(s.at_x as int) <= FACE_REACH
            &&& magnitude(s.at_y as int) <= FACE_REACH
        },
{
    proof {
        lpaddle.lemma_in_range();
        rpaddle.lemma_in_range();
    }
    let left: i128 = lpaddle.x() as i128 + lpaddle.width() as i128;
    let right: i128 = rpaddle.x() as i128;
    let x: i128 = ball.x() as i128;
    let size: i128 = ball.diameter() as i128;
    if a.x < left && x >= left {
        let at_y: i128 = crossing_y(ball, a.x, a.y, left);
        if is_on_face(at_y, lpaddle) {
            Some(Strike { side: Side::Left, at_x: left, at_y })
        } else {
            None
        }
    } else if a.x + size > right && x + size <= right {
        let at_y: i128 = crossing_y(ball, a.x, a.y, right);
        if is_on_face(at_y, rpaddle) {
            Some(Strike { side: Side::Right, at_x: right, at_y })
        } else {
            None
        }
    } else {
        None
    }
}

/// The angle at which a ball leaves `paddle` after striking it at `y`.
fn leaving_angle(y: i128, paddle: &Paddle, max_angle: u32) -> (angle: u32)
    requires
        paddle.wf(),
        on_face(y as int, paddle@),
        max_angle <= QUARTER_TURN,
    ensures
        angle == bounce_angle(y as int, paddle@, max_angle as int),
        angle <= max_angle,
{
    let height: i128 = paddle.height() as i128;
    let offset: i128 = 2 * (paddle.y() as i128) + height - 2 * y;
    let distance: i128 = if offset < 0 { -offset } else { offset };
    let most: i128 = max_angle as i128;
    proof {
        paddle.lemma_in_range();
        // The bounce point is no farther from the middle than half the face.
        assert(0 <= distance * most <= most * height) by (nonlinear_arith)
            requires
                0 <= distance <= height,
                most >= 0,
        ;
        assert(most * height <= QUARTER_TURN * PART_REACH) by (nonlinear_arith)
            requires
                0 <= most <= QUARTER_TURN,
                0 <= height <= PART_REACH,
        ;
        lemma_quot_le(distance * most, height as int, most as int);
        lemma_quot_bounds(distance * most, height as int);
    }
    let angle: i128 = mul_div(distance, most, height);
    angle as u32
}

/// What is left of the frame, in milliseconds, at the bounce point `s`.
fn rest_of_frame(ball: &Ball, a: &Reach, s: &Strike, dt_ms: u32) -> (rest: i128)
    requires
        a.x != ball@.x,
        magnitude(a.x as int) <= PROPOSAL_REACH,
        magnitude(a.y as int) <= APPROACH_REACH,
        magnitude(s.at_x as int) <= FACE_REACH,
        magnitude(s.at_y as int) <= FACE_REACH,
    ensures
        rest == residual_ms(
            ball@,
            a.x as int,
            a.y as int,
            s.at_x as int,
            s.at_y as int,
            dt_ms as int,
        ),
        magnitude(rest as int) <= REST_REACH,
{
    let dt: i128 = dt_ms as i128;
    let y: i128 = ball.y() as i128;
    if a.y != y {
        let beyond: i128 = a.y - s.at_y;
        proof {
            lemma_product_bound(
                dt as int,
                beyond as int,
                FACE_REACH as int,
                2 * APPROACH_REACH as int,
            );
        }
        mul_div(dt, beyond, a.y - y)
    } else {
        let beyond: i128 = a.x - s.at_x;
        proof {
            lemma_product_bound(
                dt as int,
                beyond as int,
                FACE_REACH as int,
                2 * APPROACH_REACH as int,
            );
        }
        mul_div(dt, beyond, a.x - ball.x() as i128)
    }
}

/// A velocity component after a bounce.
pub(crate) fn launch(speed: i32, part: u64) -> (v: i32)
    requires
        speed > 0,
        part <= HEADING_SCALE,
    ensures
        v == launch_speed(speed as int, part as int),
        0 <= v <= speed,
{
    proof {
        assert(0 <= speed * part <= speed * HEADING_SCALE) by (nonlinear_arith)
            requires
                speed > 0,
                0 <= part <= HEADING_SCALE,
        ;
        assert(speed * HEADING_SCALE <= PART_REACH * HEADING_SCALE) by (nonlinear_arith)
            requires
                0 < speed <= PART_REACH,
                HEADING_SCALE > 0,
        ;
        lemma_quot_le(speed * part, HEADING_SCALE as int, speed as int);
        lemma_quot_bounds(speed * part, HEADING_SCALE as int);
    }
    let v: i128 = mul_div(speed as i128, part as i128, HEADING_SCALE as i128);
    v as i32
}

/// Rounding down costs a component less than one unit: `speed` times `part`
/// lies between `HEADING_SCALE` times the launch speed and `HEADING_SCALE`
/// times the next number.
pub proof fn lemma_launch_speed_brackets(speed: int, part: int)
    requires
        speed >= 0,
        part >= 0,
    ensures
        0 <= launch_speed(speed, part),
        launch_speed(speed, part) * HEADING_SCALE <= speed * part < (launch_speed(speed, part)
            + 1) * HEADING_SCALE,
{
    let unit = HEADING_SCALE as int;
    let n = speed * part;
    assert(n >= 0) by (nonlinear_arith)
        requires
            n == speed * part,
            speed >= 0,
            part >= 0,
    ;
    assert(launch_speed(speed, part) == n / unit);
    assert(0 <= n / unit && (n / unit) * unit <= n < (n / unit + 1) * unit) by (nonlinear_arith)
        requires
            n >= 0,
            unit > 0,
    ;
}

/// A ball that leaves a paddle along a valid heading is no faster than its
/// speed.
pub proof fn lemma_launch_within_speed(speed: int, heading: HeadingView)
    requires
        speed > 0,
        heading.wf(),
    ensures
        heading.cos <= HEADING_SCALE,
        heading.sin <= HEADING_SCALE,
        launch_speed(speed, heading.cos) * launch_speed(speed, heading.cos) + launch_speed(
            speed,
            heading.sin,
        ) * launch_speed(speed, heading.sin) <= speed * speed,
{
    let unit = HEADING_SCALE as int;
    let c = heading.cos;
    let s = heading.sin;
    lemma_components_within_speed(c, s, unit);
    lemma_launch_speed_brackets(speed, c);
    lemma_launch_speed_brackets(speed, s);
    let a = launch_speed(speed, c);
    let b = launch_speed(speed, s);
    // The scaled components, and what they were rounded down from.
    let au = a * unit;
    let bu = b * unit;
    let sc = speed * c;
    let ss = speed * s;
    assert(0 <= au) by (nonlinear_arith)
        requires
            au == a * unit,
            a >= 0,
            unit > 0,
    ;
    assert(0 <= bu) by (nonlinear_arith)
        requires
            bu == b * unit,
            b >= 0,
            unit > 0,
    ;
    assert(au * au <= sc * sc) by (nonlinear_arith)
        requires
            0 <= au <= sc,
    ;
    assert(bu * bu <= ss * ss) by (nonlinear_arith)
        requires
            0 <= bu <= ss,
    ;
    let k = speed * speed;
    let m = unit * unit;
    let n = c * c + s * s;
    assert(sc * sc + ss * ss == k * n) by (nonlinear_arith)
        requires
            sc == speed * c,
            ss == speed * s,
            k == speed * speed,
            n == c * c + s * s,
    ;
    assert(k * n <= k * m) by (nonlinear_arith)
        requires
            n <= m,
            k >= 0,
    ;
    let q = a * a + b * b;
    assert(au * au + bu * bu == q * m) by (nonlinear_arith)
        requires
            au == a * unit,
            bu == b * unit,
            q == a * a + b * b,
            m == unit * unit,
    ;
    assert(q <= k) by (nonlinear_arith)
        requires
            q * m <= k * m,
            m > 0,
    ;
}

/// A ball that leaves a paddle along a valid heading is not slower than its
/// speed either, by more than rounding costs: with each component two units
/// longer its velocity would be longer than the speed. This holds of every
/// speed up to a quarter of `HEADING_SCALE`.
pub proof fn lemma_launch_reaches_speed(speed: int, heading: HeadingView)
    requires
        speed > 0,
        4 * speed <= HEADING_SCALE,
        heading.wf(),
    ensures
        speed * speed < (launch_speed(speed, heading.cos) + 2) * (launch_speed(
            speed,
            heading.cos,
        ) + 2) + (launch_speed(speed, heading.sin) + 2) * (launch_speed(speed, heading.sin) + 2),
{
    let unit = HEADING_SCALE as int;
    let c = heading.cos;
    let s = heading.sin;
    lemma_launch_speed_brackets(speed, c);
    lemma_launch_speed_brackets(speed, s);
    // Each component, rounded up instead of down.
    let a = launch_speed(speed, c) + 1;
    let b = launch_speed(speed, s) + 1;
    let sc = speed * c;
    let ss = speed * s;
    let au = a * unit;
    let bu = b * unit;
    assert(0 <= sc < au && 0 <= ss < bu);
    assert(sc * sc < au * au) by (nonlinear_arith)
        requires
            0 <= sc < au,
    ;
    assert(ss * ss < bu * bu) by (nonlinear_arith)
        requires
            0 <= ss < bu,
    ;
    let k = speed * speed;
    let n = c * c + s * s;
    let q = a * a + b * b;
    assert(sc * sc + ss * ss == k * n) by (nonlinear_arith)
        requires
            sc == speed * c,
            ss == speed * s,
            k == speed * speed,
            n == c * c + s * s,
    ;
    assert(au * au + bu * bu == q * unit * unit) by (nonlinear_arith)
        requires
            au == a * unit,
            bu == b * unit,
            q == a * a + b * b,
    ;
    // The squared length falls short of the squared speed by less than the
    // speed itself.
    assert(k * n >= k * unit * unit - 3 * k * unit) by (nonlinear_arith)
        requires
            n >= unit * unit - 3 * unit,
            k >= 0,
    ;
    assert(q * unit > k * unit - 3 * k) by (nonlinear_arith)
        requires
            q * unit * unit > k * unit * unit - 3 * k * unit,
            unit > 0,
    ;
    assert(4 * k <= speed * unit) by (nonlinear_arith)
        requires
            k == speed * speed,
            4 * speed <= unit,
            speed > 0,
    ;
    assert(k - q < speed) by (nonlinear_arith)
        requires
            q * unit > k * unit - 3 * k,
            4 * k <= speed * unit,
            unit > 0,
            speed > 0,
    ;
    // The two components together are no shorter than the speed.
    let t = c + s;
    assert(t * t >= n) by (nonlinear_arith)
        requires
            t == c + s,
            n == c * c + s * s,
            c >= 0,
            s >= 0,
    ;
    assert(t >= unit - 2) by (nonlinear_arith)
        requires
            t * t >= unit * unit - 3 * unit,
            t >= 0,
            unit >= 4,
    ;
    assert(speed * t >= speed * unit - 2 * speed) by (nonlinear_arith)
        requires
            t >= unit - 2,
            speed > 0,
    ;
    assert(sc + ss == speed * t) by (nonlinear_arith)
        requires
            sc == speed * c,
            ss == speed * s,
            t == c + s,
    ;
    assert((a + b) * unit == au + bu) by (nonlinear_arith)
        requires
            au == a * unit,
            bu == b * unit,
    ;
    assert(a + b >= speed) by (nonlinear_arith)
        requires
            (a + b) * unit > speed * unit - 2 * speed,
            4 * speed <= unit,
            speed > 0,
    ;
    assert((a + 1) * (a + 1) + (b + 1) * (b + 1) == q + 2 * (a + b) + 2) by (nonlinear_arith)
        requires
            q == a * a + b * b,
    ;
}

/// The ball at the end of a frame that would leave it at `(x, y)` with
/// velocity `(vx, vy)` if there were no side walls.
fn settle(ball: &Ball, arena: &Arena, x: i128, y: i128, vx: i32, vy: i32) -> (b: Ball)
    requires
        ball.wf(),
        keeps_speed(vx as int, vy as int, ball@.speed),
        magnitude(x as int) <= FLIGHT_REACH,
    ensures
        b.wf(),
        b@ == settled(ball@, arena@, x as int, y as int, vx as int, vy as int),
{
    let size: i128 = ball.diameter() as i128;
    let width: i128 = arena.width() as i128;
    proof {
        ball.lemma_in_range();
        lemma_components_within_speed(vx as int, vy as int, ball@.speed);
        lemma_turning_keeps_speed(vx as int, vy as int, ball@.speed);
    }
    if x < 0 {
        ball.moved(saturate(-x), saturate(y), -vx, vy)
    } else if x + size > width {
        ball.moved(saturate(width - (x + size - width) - size), saturate(y), -vx, vy)
    } else {
        ball.moved(saturate(x), saturate(y), vx, vy)
    }
}

/// The collision resolver: the ball after a frame of `dt_ms` milliseconds.
/// `heading` is the direction along which the ball leaves a paddle that it
/// strikes in this frame; in a frame without a strike it plays no part.
pub fn resolve(
    ball: &Ball,
    arena: &Arena,
    lpaddle: &Paddle,
    rpaddle: &Paddle,
    dt_ms: u32,
    heading: &Heading,
) -> (r: Ball)
    requires
        ball.wf(),
        heading.wf(),
    ensures
        r.wf(),
        r@ == frame(ball@, arena@, lpaddle@, rpaddle@, dt_ms as int, heading@),
{
    let a: Reach = approach_of(ball, arena, dt_ms);
    match find_strike(ball, &a, lpaddle, rpaddle) {
        None => settle(ball, arena, a.x, a.y, ball.vx(), a.vy),
        Some(s) => {
            let rest: i128 = rest_of_frame(ball, &a, &s, dt_ms);
            proof {
                ball.lemma_in_range();
                lemma_launch_within_speed(ball@.speed, heading@);
                lemma_launch_reaches_speed(ball@.speed, heading@);
            }
            let along: i32 = launch(ball.speed(), heading.cos());
            let across: i32 = launch(ball.speed(), heading.sin());
            let vx: i32 = match s.side {
                Side::Left => along,
                Side::Right => -along,
            };
            let vy: i32 = if a.vy < 0 {
                -across
            } else {
                across
            };
            proof {
                assert(keeps_speed(along as int, across as int, ball@.speed));
                lemma_turning_keeps_speed(along as int, across as int, ball@.speed);
                lemma_product_bound(vx as int, rest as int, PART_REACH as int, REST_REACH as int);
                lemma_product_bound(vy as int, rest as int, PART_REACH as int, REST_REACH as int);
            }
            let x: i128 = s.at_x + mul_div(vx as i128, rest, MS_PER_SECOND as i128);
            let y: i128 = s.at_y + mul_div(vy as i128, rest, MS_PER_SECOND as i128);
            settle(ball, arena, x, y, vx, vy)
        },
    }
}

/// The paddle that the ball strikes in a frame of `dt_ms` milliseconds, and
/// the angle at which it leaves that paddle; `None` for a frame without a
/// strike.
pub fn paddle_contact(
    ball: &Ball,
    arena: &Arena,
    lpaddle: &Paddle,
    rpaddle: &Paddle,
    dt_ms: u32,
) -> (r: Option<Contact>)
    requires
        ball.wf(),
        lpaddle.wf(),
        rpaddle.wf(),
    ensures
        r is None <==> contact_side(ball@, arena@, lpaddle@, rpaddle@, dt_ms as int) is None,
        r matches Some(c) ==> {
            &&& contact_side(ball@, arena@, lpaddle@, rpaddle@, dt_ms as int) == Some(c.side)
            &&& c.angle == contact_angle(
                ball@,
                arena@,
                paddle_on(c.side, lpaddle@, rpaddle@),
                c.side,
                dt_ms as int,
            )
            &&& c.angle <= ball@.max_paddle_bounce_angle
        },
{
    let a: Reach = approach_of(ball, arena, dt_ms);
    match find_strike(ball, &a, lpaddle, rpaddle) {
        None => None,
        Some(s) => {
            let angle: u32 = match s.side {
                Side::Left => leaving_angle(s.at_y, lpaddle, ball.max_paddle_bounce_angle()),
                Side::Right => leaving_angle(s.at_y, rpaddle, ball.max_paddle_bounce_angle()),
            };
            Some(Contact { side: s.side, angle })
        },
    }
}

/// One frame of ball motion with the trigonometry left to the caller:
/// `trig` is asked for the heading of the bounce angle in a frame in which
/// the ball strikes a paddle, and not at all in any other frame.
pub fn advance<F: Fn(u32) -> Heading>(
    ball: &Ball,
    arena: &Arena,
    lpaddle: &Paddle,
    rpaddle: &Paddle,
    dt_ms: u32,
    trig: F,
) -> (r: Ball)
    requires
        ball.wf(),
        lpaddle.wf(),
        rpaddle.wf(),
        forall|angle: u32| angle <= QUARTER_TURN ==> call_requires(trig, (angle,)),
        forall|angle: u32, h: Heading| call_ensures(trig, (angle,), h) ==> h.wf(),
    ensures
        r.wf(),
        match contact_side(ball@, arena@, lpaddle@, rpaddle@, dt_ms as int) {
            None => r@ == coast(ball@, arena@, dt_ms as int),
            Some(side) => exists|h: Heading|
                {
                    &&& call_ensures(
                        trig,
                        (contact_angle(
                            ball@,
                            arena@,
                            paddle_on(side, lpaddle@, rpaddle@),
                            side,
                            dt_ms as int,
                        ) as u32,),
                        h,
                    )
                    &&& r@ == rebound(
                        ball@,
                        arena@,
                        paddle_on(side, lpaddle@, rpaddle@),
                        side,
                        dt_ms as int,
                        h@,
                    )
                },
        },
{
    match paddle_contact(ball, arena, lpaddle, rpaddle, dt_ms) {
        None => resolve(ball, arena, lpaddle, rpaddle, dt_ms, &Heading::level()),
        Some(c) => {
            let h: Heading = trig(c.angle);
            resolve(ball, arena, lpaddle, rpaddle, dt_ms, &h)
        },
    }
}

} // verus!
