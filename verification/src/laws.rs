//! What holds of every frame: the laws of the physics core, proved from the
//! definitions in `physics`.

use vstd::prelude::*;
use crate::arena::{Arena, ArenaView};
use crate::ball::{keeps_speed, lemma_turning_keeps_speed, Ball, BallView};
use crate::game::paddle_top;
use crate::heading::HeadingView;
use crate::paddle::PaddleView;
use crate::physics::{
    approach, bounce, bounce_angle, bounce_y, coast, contact_side, crosses_left, crosses_right,
    frame, launch_speed, launch_vx, launch_vy, on_face, paddle_on, plane, proposed_x, proposed_y,
    rebound, residual_ms, settled, travel, Side,
};
use crate::resolver::{
    lemma_launch_reaches_speed, lemma_launch_speed_brackets, lemma_launch_within_speed,
};
use crate::units::{lemma_quot_bounds, lemma_quot_le, magnitude, quot, sign, HEADING_SCALE};

verus! {

/// The bounding box of `ball` lies inside `arena`.
pub open spec fn inside(ball: BallView, arena: ArenaView) -> bool {
    &&& 0 <= ball.x <= arena.width - ball.diameter
    &&& 0 <= ball.y <= arena.height - ball.diameter
}

/// Speed is conserved by the walls: a frame without a paddle strike leaves
/// the squared length of the velocity as it was, whatever the walls did.
pub proof fn lemma_coast_conserves_speed(ball: BallView, arena: ArenaView, dt_ms: int)
    ensures
        coast(ball, arena, dt_ms).vx * coast(ball, arena, dt_ms).vx + coast(
            ball,
            arena,
            dt_ms,
        ).vy * coast(ball, arena, dt_ms).vy == ball.vx * ball.vx + ball.vy * ball.vy,
        magnitude(coast(ball, arena, dt_ms).vx) == magnitude(ball.vx),
        magnitude(coast(ball, arena, dt_ms).vy) == magnitude(ball.vy),
{
    let vx = ball.vx;
    let vy = ball.vy;
    assert((-vx) * (-vx) == vx * vx) by (nonlinear_arith);
    assert((-vy) * (-vy) == vy * vy) by (nonlinear_arith);
}

/// Speed is conserved at a paddle: after a bounce along a valid heading the
/// velocity is of the length of the speed again, as nearly as whole numbers
/// allow, and each of its components falls short of the speed that the
/// heading carries by less than one unit.
pub proof fn lemma_rebound_keeps_speed(
    ball: Ball,
    arena: ArenaView,
    paddle: PaddleView,
    side: Side,
    dt_ms: int,
    heading: HeadingView,
)
    requires
        ball.wf(),
        heading.wf(),
    ensures
        ({
            let after = rebound(ball@, arena, paddle, side, dt_ms, heading);
            &&& keeps_speed(after.vx, after.vy, ball@.speed)
            &&& ball@.speed * heading.cos - HEADING_SCALE < magnitude(after.vx) * HEADING_SCALE
                <= ball@.speed * heading.cos
            &&& ball@.speed * heading.sin - HEADING_SCALE < magnitude(after.vy) * HEADING_SCALE
                <= ball@.speed * heading.sin
        }),
{
    let speed = ball@.speed;
    ball.lemma_in_range();
    lemma_launch_within_speed(speed, heading);
    lemma_launch_reaches_speed(speed, heading);
    lemma_launch_speed_brackets(speed, heading.cos);
    lemma_launch_speed_brackets(speed, heading.sin);
    let along = launch_speed(speed, heading.cos);
    let across = launch_speed(speed, heading.sin);
    assert(keeps_speed(along, across, speed));
    lemma_turning_keeps_speed(along, across, speed);
    let a = approach(ball@, arena, dt_ms);
    let vx = launch_vx(speed, heading, side);
    let vy = launch_vy(speed, heading, a.vy);
    assert(vx == along || vx == -along);
    assert(vy == across || vy == -across) by (nonlinear_arith)
        requires
            vy == sign(a.vy) * across,
            sign(a.vy) == 1 || sign(a.vy) == -1,
    ;
    lemma_turning_keeps_speed(vx, vy, speed);
    assert((along + 1) * HEADING_SCALE == along * HEADING_SCALE + HEADING_SCALE)
        by (nonlinear_arith);
    assert((across + 1) * HEADING_SCALE == across * HEADING_SCALE + HEADING_SCALE)
        by (nonlinear_arith);
}

/// Speed is conserved over every frame: a valid ball stays valid, whichever
/// way the frame goes, and keeps its speed and its diameter.
pub proof fn lemma_frame_keeps_ball_valid(
    ball: Ball,
    arena: ArenaView,
    lpaddle: PaddleView,
    rpaddle: PaddleView,
    dt_ms: int,
    heading: HeadingView,
)
    requires
        ball.wf(),
        heading.wf(),
    ensures
        frame(ball@, arena, lpaddle, rpaddle, dt_ms, heading).wf(),
        frame(ball@, arena, lpaddle, rpaddle, dt_ms, heading).speed == ball@.speed,
        frame(ball@, arena, lpaddle, rpaddle, dt_ms, heading).diameter == ball@.diameter,
{
    match contact_side(ball@, arena, lpaddle, rpaddle, dt_ms) {
        None => {
            lemma_coast_conserves_speed(ball@, arena, dt_ms);
            lemma_turning_keeps_speed(ball@.vx, ball@.vy, ball@.speed);
        },
        Some(side) => {
            lemma_rebound_keeps_speed(
                ball,
                arena,
                paddle_on(side, lpaddle, rpaddle),
                side,
                dt_ms,
                heading,
            );
        },
    }
}

/// `p` overshoots neither wall of an axis by more than the room that a box
/// of the given size has between them.
pub open spec fn within_reach(p: int, size: int, extent: int) -> bool {
    -(extent - size) <= p <= 2 * (extent - size)
}

/// Reflection off the side walls brings back inside exactly those places
/// that overshoot a wall by no more than the free width of the arena.
pub proof fn lemma_side_walls_contain(
    ball: Ball,
    arena: Arena,
    x: int,
    y: int,
    vx: int,
    vy: int,
)
    requires
        ball.wf(),
        ball@.diameter <= arena@.width,
    ensures
        0 <= settled(ball@, arena@, x, y, vx, vy).x <= arena@.width - ball@.diameter
            <==> within_reach(x, ball@.diameter, arena@.width),
{
    ball.lemma_in_range();
    arena.lemma_in_range();
}

/// Reflection off the top and bottom walls brings back inside exactly those
/// places that overshoot a wall by no more than the free height of the arena.
pub proof fn lemma_top_and_bottom_walls_contain(ball: BallView, arena: ArenaView, dt_ms: int)
    requires
        ball.diameter <= arena.height,
    ensures
        0 <= approach(ball, arena, dt_ms).y <= arena.height - ball.diameter <==> within_reach(
            proposed_y(ball, dt_ms),
            ball.diameter,
            arena.height,
        ),
{
}

/// A frame without a paddle strike ends with the ball inside the arena if
/// and only if straight travel overshoots no wall by more than the arena
/// leaves the ball room.
pub proof fn lemma_coast_inside_iff(ball: Ball, arena: Arena, dt_ms: int)
    requires
        ball.wf(),
        ball@.diameter <= arena@.width,
        ball@.diameter <= arena@.height,
    ensures
        inside(coast(ball@, arena@, dt_ms), arena@) <==> within_reach(
            proposed_x(ball@, dt_ms),
            ball@.diameter,
            arena@.width,
        ) && within_reach(proposed_y(ball@, dt_ms), ball@.diameter, arena@.height),
{
    ball.lemma_in_range();
    arena.lemma_in_range();
    let a = approach(ball@, arena@, dt_ms);
    lemma_side_walls_contain(ball, arena, a.x, a.y, ball@.vx, a.vy);
    lemma_top_and_bottom_walls_contain(ball@, arena@, dt_ms);
}

/// The walls keep the ball in: a ball that starts inside the arena and
/// travels no farther along either axis than the arena leaves it room is
/// inside the arena again after a frame without a paddle strike.
pub proof fn lemma_coast_stays_inside(ball: Ball, arena: Arena, dt_ms: int)
    requires
        ball.wf(),
        inside(ball@, arena@),
        magnitude(travel(ball@.vx, dt_ms)) <= arena@.width - ball@.diameter,
        magnitude(travel(ball@.vy, dt_ms)) <= arena@.height - ball@.diameter,
    ensures
        inside(coast(ball@, arena@, dt_ms), arena@),
{
    lemma_coast_inside_iff(ball, arena, dt_ms);
}

/// A frame with a paddle strike ends with the ball inside the arena if and
/// only if the flight from the paddle ends between the top and bottom walls
/// and overshoots no side wall by more than the arena leaves the ball room.
pub proof fn lemma_rebound_inside_iff(
    ball: Ball,
    arena: Arena,
    paddle: PaddleView,
    side: Side,
    dt_ms: int,
    heading: HeadingView,
)
    requires
        ball.wf(),
        ball@.diameter <= arena@.width,
        ball@.diameter <= arena@.height,
    ensures
        ({
            let f = bounce(ball@, arena@, paddle, side, dt_ms, heading);
            inside(rebound(ball@, arena@, paddle, side, dt_ms, heading), arena@) <==> within_reach(
                f.x,
                ball@.diameter,
                arena@.width,
            ) && 0 <= f.y <= arena@.height - ball@.diameter
        }),
{
    ball.lemma_in_range();
    arena.lemma_in_range();
    let f = bounce(ball@, arena@, paddle, side, dt_ms, heading);
    lemma_side_walls_contain(ball, arena, f.x, f.y, f.vx, f.vy);
}

/// At the left paddle the bounce point lies on the way of the ball, and what
/// is left of the frame there is a part of the frame.
pub proof fn lemma_left_bounce_within_frame(
    ball: BallView,
    new_x: int,
    new_y: int,
    lpaddle: PaddleView,
    dt_ms: int,
)
    requires
        crosses_left(ball, new_x, lpaddle),
        dt_ms >= 0,
    ensures
        ({
            let at_x = plane(Side::Left, lpaddle);
            let at_y = bounce_y(ball, new_x, new_y, at_x);
            &&& ball.y <= at_y <= new_y || new_y <= at_y <= ball.y
            &&& 0 <= residual_ms(ball, new_x, new_y, at_x, at_y, dt_ms) <= dt_ms
        }),
{
    let at_x = plane(Side::Left, lpaddle);
    let at_y = bounce_y(ball, new_x, new_y, at_x);
    let run = new_x - ball.x;
    let rise = new_y - ball.y;
    let reach = at_x - ball.x;
    assert(run < 0 && run < reach <= 0);
    if rise != 0 {
        // The bounce point divides the rise as the plane divides the run.
        let climbed = quot(rise * reach, run);
        assert(magnitude(rise * reach) <= magnitude(rise) * magnitude(run)) by (nonlinear_arith)
            requires
                run < reach <= 0,
        ;
        lemma_quot_le(rise * reach, run, magnitude(rise));
        lemma_quot_bounds(rise * reach, run);
        assert(rise > 0 ==> rise * reach <= 0) by (nonlinear_arith)
            requires
                reach <= 0,
        ;
        assert(rise < 0 ==> rise * reach >= 0) by (nonlinear_arith)
            requires
                reach <= 0,
        ;
        assert(rise > 0 ==> 0 <= climbed <= rise);
        assert(rise < 0 ==> rise <= climbed <= 0);
        let beyond = new_y - at_y;
        assert(beyond == rise - climbed);
        assert(magnitude(dt_ms * beyond) <= dt_ms * magnitude(rise)) by (nonlinear_arith)
            requires
                dt_ms >= 0,
                magnitude(beyond) <= magnitude(rise),
        ;
        lemma_quot_le(dt_ms * beyond, rise, dt_ms);
        lemma_quot_bounds(dt_ms * beyond, rise);
        assert(rise > 0 ==> dt_ms * beyond >= 0) by (nonlinear_arith)
            requires
                dt_ms >= 0,
                rise > 0 ==> beyond >= 0,
        ;
        assert(rise < 0 ==> dt_ms * beyond <= 0) by (nonlinear_arith)
            requires
                dt_ms >= 0,
                rise < 0 ==> beyond <= 0,
        ;
    } else {
        assert(rise * reach == 0) by (nonlinear_arith)
            requires
                rise == 0,
        ;
        let beyond = new_x - at_x;
        assert(run <= beyond < 0);
        assert(magnitude(dt_ms * beyond) <= dt_ms * magnitude(run) && dt_ms * beyond <= 0)
            by (nonlinear_arith)
            requires
                dt_ms >= 0,
                run <= beyond < 0,
        ;
        lemma_quot_le(dt_ms * beyond, run, dt_ms);
        lemma_quot_bounds(dt_ms * beyond, run);
    }
}

/// A bounce off the left paddle leaves the ball clear of it: before the
/// side walls are looked at, the left edge of the ball is at or beyond the
/// plane of the paddle, and no farther from it than the ball travels in a
/// whole frame at full speed.
pub proof fn lemma_left_bounce_clears_the_paddle(
    ball: BallView,
    arena: ArenaView,
    lpaddle: PaddleView,
    dt_ms: int,
    heading: HeadingView,
)
    requires
        ball.wf(),
        heading.wf(),
        dt_ms >= 0,
        crosses_left(ball, approach(ball, arena, dt_ms).x, lpaddle),
    ensures
        plane(Side::Left, lpaddle) <= bounce(ball, arena, lpaddle, Side::Left, dt_ms, heading).x
            <= plane(Side::Left, lpaddle) + travel(ball.speed, dt_ms),
{
    let a = approach(ball, arena, dt_ms);
    let at_x = plane(Side::Left, lpaddle);
    let at_y = bounce_y(ball, a.x, a.y, at_x);
    let rest = residual_ms(ball, a.x, a.y, at_x, at_y, dt_ms);
    lemma_left_bounce_within_frame(ball, a.x, a.y, lpaddle, dt_ms);
    lemma_launch_within_speed(ball.speed, heading);
    lemma_launch_speed_brackets(ball.speed, heading.cos);
    let speed = ball.speed;
    let vx = launch_vx(speed, heading, Side::Left);
    let unit = HEADING_SCALE as int;
    assert(0 <= vx <= speed) by (nonlinear_arith)
        requires
            vx == (speed * heading.cos) / unit,
            0 <= heading.cos <= unit,
            unit > 0,
            speed > 0,
    ;
    assert(0 <= vx * rest <= speed * dt_ms) by (nonlinear_arith)
        requires
            0 <= vx <= speed,
            0 <= rest <= dt_ms,
    ;
}

/// The walls keep the ball in after a bounce off the left paddle too: where
/// the plane of the paddle is inside the arena and a frame at full speed
/// takes the ball no farther beyond the right wall than the arena leaves it
/// room, the ball ends the frame between the side walls.
pub proof fn lemma_left_bounce_stays_between_side_walls(
    ball: Ball,
    arena: Arena,
    lpaddle: PaddleView,
    rpaddle: PaddleView,
    dt_ms: int,
    heading: HeadingView,
)
    requires
        ball.wf(),
        heading.wf(),
        dt_ms >= 0,
        contact_side(ball@, arena@, lpaddle, rpaddle, dt_ms) == Some(Side::Left),
        ball@.diameter <= arena@.width,
        0 <= plane(Side::Left, lpaddle),
        plane(Side::Left, lpaddle) + travel(ball@.speed, dt_ms) <= 2 * (arena@.width
            - ball@.diameter),
    ensures
        0 <= frame(ball@, arena@, lpaddle, rpaddle, dt_ms, heading).x <= arena@.width
            - ball@.diameter,
{
    lemma_left_bounce_clears_the_paddle(ball@, arena@, lpaddle, dt_ms, heading);
    let f = bounce(ball@, arena@, lpaddle, Side::Left, dt_ms, heading);
    lemma_side_walls_contain(ball, arena, f.x, f.y, f.vx, f.vy);
}

/// A ball that meets the plane of a paddle at the very middle of its face
/// leaves at angle zero.
pub proof fn lemma_centre_hit_is_level(y: int, paddle: PaddleView, max_angle: int)
    requires
        paddle.wf(),
        2 * y == 2 * paddle.y + paddle.height,
    ensures
        bounce_angle(y, paddle, max_angle) == 0,
{
    let offset = magnitude(2 * paddle.y + paddle.height - 2 * y);
    assert(offset * max_angle == 0) by (nonlinear_arith)
        requires
            offset == 0,
    ;
}

/// At angle zero the ball leaves a paddle straight along the horizontal, at
/// its full speed and away from the paddle.
pub proof fn lemma_level_launch(speed: int, heading: HeadingView, vy_before: int)
    requires
        speed >= 0,
        heading.cos == HEADING_SCALE,
        heading.sin == 0,
    ensures
        launch_vx(speed, heading, Side::Left) == speed,
        launch_vx(speed, heading, Side::Right) == -speed,
        launch_vy(speed, heading, vy_before) == 0,
{
    let unit = HEADING_SCALE as int;
    assert(speed * heading.sin == 0) by (nonlinear_arith)
        requires
            heading.sin == 0,
    ;
    assert((speed * heading.cos) / unit == speed && speed * heading.cos >= 0)
        by (nonlinear_arith)
        requires
            heading.cos == unit,
            unit > 0,
            speed >= 0,
    ;
    assert(sign(vy_before) * 0 == 0);
}

/// A ball that meets the plane of a paddle at either end of its face leaves
/// at the steepest angle.
pub proof fn lemma_edge_hit_is_steepest(y: int, paddle: PaddleView, max_angle: int)
    requires
        paddle.wf(),
        max_angle >= 0,
        y == paddle.y || y == paddle.y + paddle.height,
    ensures
        bounce_angle(y, paddle, max_angle) == max_angle,
{
    let height = paddle.height;
    let offset = magnitude(2 * paddle.y + height - 2 * y);
    assert(offset == height);
    assert((height * max_angle) / height == max_angle && height * max_angle >= 0)
        by (nonlinear_arith)
        requires
            height > 0,
            max_angle >= 0,
    ;
}

/// Between the middle and the ends of the face the angle of a bounce never
/// exceeds the steepest angle.
pub proof fn lemma_bounce_angle_bounded(y: int, paddle: PaddleView, max_angle: int)
    requires
        paddle.wf(),
        max_angle >= 0,
        on_face(y, paddle),
    ensures
        0 <= bounce_angle(y, paddle, max_angle) <= max_angle,
{
    let height = paddle.height;
    let offset = magnitude(2 * paddle.y + height - 2 * y);
    assert(0 <= (offset * max_angle) / height <= max_angle && offset * max_angle >= 0)
        by (nonlinear_arith)
        requires
            height > 0,
            max_angle >= 0,
            0 <= offset <= height,
    ;
}

/// A miss is no bounce: a ball that crosses the plane of the left paddle
/// off its face ends the frame as if there were no paddles, with its
/// velocity turned by the walls alone.
pub proof fn lemma_miss_coasts(
    ball: BallView,
    arena: ArenaView,
    lpaddle: PaddleView,
    rpaddle: PaddleView,
    dt_ms: int,
    heading: HeadingView,
)
    requires
        crosses_left(ball, approach(ball, arena, dt_ms).x, lpaddle),
        !on_face(
            bounce_y(
                ball,
                approach(ball, arena, dt_ms).x,
                approach(ball, arena, dt_ms).y,
                plane(Side::Left, lpaddle),
            ),
            lpaddle,
        ),
    ensures
        contact_side(ball, arena, lpaddle, rpaddle, dt_ms) is None,
        frame(ball, arena, lpaddle, rpaddle, dt_ms, heading) == coast(ball, arena, dt_ms),
{
}

/// A ball that moves straight up or down strikes no paddle, whatever the
/// place of the paddles and the length of the frame.
pub proof fn lemma_vertical_motion_never_strikes(
    ball: BallView,
    arena: ArenaView,
    lpaddle: PaddleView,
    rpaddle: PaddleView,
    dt_ms: int,
    heading: HeadingView,
)
    requires
        ball.vx == 0,
    ensures
        contact_side(ball, arena, lpaddle, rpaddle, dt_ms) is None,
        frame(ball, arena, lpaddle, rpaddle, dt_ms, heading) == coast(ball, arena, dt_ms),
{
    assert(ball.vx * dt_ms == 0) by (nonlinear_arith)
        requires
            ball.vx == 0,
    ;
    assert(travel(ball.vx, dt_ms) == 0);
    assert(approach(ball, arena, dt_ms).x == ball.x);
}

/// In one frame the ball crosses the plane of at most one paddle, so the
/// two paddles can be looked at in either order.
pub proof fn lemma_one_plane_per_frame(
    ball: BallView,
    new_x: int,
    lpaddle: PaddleView,
    rpaddle: PaddleView,
)
    ensures
        !(crosses_left(ball, new_x, lpaddle) && crosses_right(ball, new_x, rpaddle)),
{
}

/// In a frame without a strike the heading plays no part.
pub proof fn lemma_heading_only_matters_at_a_paddle(
    ball: BallView,
    arena: ArenaView,
    lpaddle: PaddleView,
    rpaddle: PaddleView,
    dt_ms: int,
    first: HeadingView,
    second: HeadingView,
)
    requires
        contact_side(ball, arena, lpaddle, rpaddle, dt_ms) is None,
    ensures
        frame(ball, arena, lpaddle, rpaddle, dt_ms, first) == frame(
            ball,
            arena,
            lpaddle,
            rpaddle,
            dt_ms,
            second,
        ),
{
}

/// A paddle that is no taller than the arena stays inside it wherever the
/// pointer goes.
pub proof fn lemma_paddle_stays_in_arena(pointer: int, paddle_height: int, arena_height: int)
    requires
        paddle_height <= arena_height,
    ensures
        0 <= paddle_top(pointer, paddle_height, arena_height) <= arena_height - paddle_height,
{
}

} // verus!
