use pong::arena::Arena;
use pong::ball::Ball;
use pong::heading::Heading;
use pong::paddle::Paddle;
use pong::physics::{Contact, Side};
use pong::resolver::{advance, integrate, paddle_contact, resolve};
use pong::scene::Color;

const WHITE: Color = Color { r: 255, g: 255, b: 255 };
const THIRD_OF_HALF_TURN: u32 = 1_047_197;

fn arena() -> Arena {
    Arena::new(WHITE, 800_000, 600_000).unwrap()
}

fn left_paddle() -> Paddle {
    Paddle::new(WHITE, 4_000, 260_000, 5_000, 80_000, 1_200_000, 0, 0).unwrap()
}

fn right_paddle() -> Paddle {
    Paddle::new(WHITE, 791_000, 260_000, 5_000, 80_000, 1_200_000, 0, 0).unwrap()
}

fn ball(x: i32, y: i32, diameter: i32, speed: i32, vx: i32, vy: i32) -> Ball {
    Ball::new(WHITE, x, y, diameter, speed, vx, vy, THIRD_OF_HALF_TURN).unwrap()
}

fn trig(angle: u32) -> Heading {
    let radians = angle as f64 / 1e6;
    Heading::new((radians.cos() * 1e10).floor() as u64, (radians.sin() * 1e10).floor() as u64)
        .unwrap()
}

/// The heading of a sixth of a turn, rounded down.
fn steep() -> Heading {
    Heading::new(5_000_000_000, 8_660_254_037).unwrap()
}

fn state(b: &Ball) -> (i32, i32, i32, i32) {
    (b.x(), b.y(), b.vx(), b.vy())
}

#[test]
fn integrate_adds_velocity_times_time() {
    let b = ball(400_000, 300_000, 11_000, 500_000, -400_000, 300_000);
    assert_eq!(integrate(&b, 25), (390_000, 307_500));
    assert_eq!(integrate(&b, 0), (400_000, 300_000));
    assert_eq!(integrate(&b, 1000), (0, 600_000));
}

#[test]
fn integrate_rounds_toward_zero_in_both_directions() {
    let b = ball(0, 0, 11_000, 1_413, 999, -999);
    assert_eq!(integrate(&b, 1), (0, 0));
    assert_eq!(integrate(&b, 2), (1, -1));
    assert_eq!(integrate(&b, 3), (2, -2));
}

#[test]
fn integrate_does_not_stop_at_a_wall() {
    let b = ball(5_000, 5_000, 11_000, 565_686, -400_000, -400_000);
    assert_eq!(integrate(&b, 1000), (-395_000, -395_000));
    let fast = ball(i32::MAX, i32::MIN, 1, i32::MAX, i32::MAX, 0);
    assert_eq!(
        integrate(&fast, u32::MAX),
        (i32::MAX as i64 + (i32::MAX as i64 * u32::MAX as i64) / 1000, i32::MIN as i64)
    );
}

#[test]
fn wall_reflection_symmetry() {
    // Straight travel leaves the ball two pixels above the top wall.
    let b = ball(400_000, 8_000, 10_000, 400_000, 0, -400_000);
    assert_eq!(integrate(&b, 25), (400_000, -2_000));
    let after = resolve(&b, &arena(), &left_paddle(), &right_paddle(), 25, &Heading::level());
    assert_eq!(state(&after), (400_000, 2_000, 0, 400_000));
}

#[test]
fn bottom_wall_keeps_the_overshoot() {
    let b = ball(400_000, 585_000, 10_000, 400_000, 0, 400_000);
    let after = resolve(&b, &arena(), &left_paddle(), &right_paddle(), 25, &Heading::level());
    assert_eq!(state(&after), (400_000, 585_000, 0, -400_000));
}

#[test]
fn bottom_wall_reflects_a_ball_that_just_touches_it() {
    let b = ball(400_000, 580_000, 10_000, 400_000, 0, 400_000);
    let after = resolve(&b, &arena(), &left_paddle(), &right_paddle(), 25, &Heading::level());
    assert_eq!(state(&after), (400_000, 590_000, 0, -400_000));
}

#[test]
fn top_wall_leaves_a_ball_that_just_touches_it() {
    let b = ball(400_000, 10_000, 10_000, 400_000, 0, -400_000);
    let after = resolve(&b, &arena(), &left_paddle(), &right_paddle(), 25, &Heading::level());
    assert_eq!(state(&after), (400_000, 0, 0, -400_000));
}

#[test]
fn right_wall_leaves_a_ball_that_just_touches_it() {
    // The ball passes the plane of the right paddle far above its face.
    let b = ball(780_000, 10_000, 10_000, 400_000, 400_000, 0);
    let after = resolve(&b, &arena(), &left_paddle(), &right_paddle(), 25, &Heading::level());
    assert_eq!(state(&after), (790_000, 10_000, 400_000, 0));
}

#[test]
fn right_wall_keeps_the_overshoot() {
    let b = ball(785_000, 10_000, 10_000, 400_000, 400_000, 0);
    let after = resolve(&b, &arena(), &left_paddle(), &right_paddle(), 25, &Heading::level());
    assert_eq!(state(&after), (785_000, 10_000, -400_000, 0));
}

#[test]
fn left_wall_mirrors_about_zero() {
    let b = ball(5_000, 10_000, 10_000, 400_000, -400_000, 0);
    let after = resolve(&b, &arena(), &left_paddle(), &right_paddle(), 25, &Heading::level());
    assert_eq!(state(&after), (5_000, 10_000, 400_000, 0));
}

#[test]
fn corner_reflects_off_both_walls() {
    let b = ball(5_000, 5_000, 10_000, 565_686, -400_000, -400_000);
    let after = resolve(&b, &arena(), &left_paddle(), &right_paddle(), 25, &Heading::level());
    assert_eq!(state(&after), (5_000, 5_000, 400_000, 400_000));
}

#[test]
fn paddle_center_hit() {
    let b = ball(19_000, 292_500, 11_000, 500_000, -400_000, 300_000);
    let c = paddle_contact(&b, &arena(), &left_paddle(), &right_paddle(), 50);
    assert_eq!(c, Some(Contact { side: Side::Left, angle: 0 }));
    let after = resolve(&b, &arena(), &left_paddle(), &right_paddle(), 50, &trig(0));
    // Half of the frame is left at the bounce point (9, 300) px.
    assert_eq!(state(&after), (21_500, 300_000, 500_000, 0));
}

#[test]
fn paddle_edge_hit() {
    let top = ball(19_000, 252_500, 11_000, 500_000, -400_000, 300_000);
    assert_eq!(
        paddle_contact(&top, &arena(), &left_paddle(), &right_paddle(), 50),
        Some(Contact { side: Side::Left, angle: THIRD_OF_HALF_TURN })
    );
    let bottom = ball(19_000, 332_500, 11_000, 500_000, -400_000, 300_000);
    assert_eq!(
        paddle_contact(&bottom, &arena(), &left_paddle(), &right_paddle(), 50),
        Some(Contact { side: Side::Left, angle: THIRD_OF_HALF_TURN })
    );
}

#[test]
fn paddle_edge_hit_leaves_at_the_steepest_angle() {
    let b = ball(19_000, 252_500, 11_000, 500_000, -400_000, 300_000);
    let after = resolve(&b, &arena(), &left_paddle(), &right_paddle(), 50, &steep());
    assert_eq!(state(&after), (15_250, 270_825, 250_000, 433_012));
}

#[test]
fn bounce_angle_grows_with_the_distance_from_the_center() {
    // Bounce point a quarter of the face above the middle.
    let b = ball(19_000, 272_500, 11_000, 500_000, -400_000, 300_000);
    assert_eq!(
        paddle_contact(&b, &arena(), &left_paddle(), &right_paddle(), 50),
        Some(Contact { side: Side::Left, angle: 523_598 })
    );
    // The same distance below the middle gives the same angle.
    let b = ball(19_000, 312_500, 11_000, 500_000, -400_000, 300_000);
    assert_eq!(
        paddle_contact(&b, &arena(), &left_paddle(), &right_paddle(), 50),
        Some(Contact { side: Side::Left, angle: 523_598 })
    );
}

#[test]
fn bounce_keeps_the_vertical_direction() {
    let up = ball(19_000, 267_500, 11_000, 500_000, -400_000, -300_000);
    let after = resolve(&up, &arena(), &left_paddle(), &right_paddle(), 50, &steep());
    // Bounce point (9, 260) px, the upper end of the face.
    assert_eq!(state(&after), (15_250, 249_175, 250_000, -433_012));
}

#[test]
fn miss_case() {
    let b = ball(15_000, 100_000, 11_000, 400_000, -400_000, 0);
    assert_eq!(paddle_contact(&b, &arena(), &left_paddle(), &right_paddle(), 25), None);
    let after = resolve(&b, &arena(), &left_paddle(), &right_paddle(), 25, &trig(0));
    assert_eq!(state(&after), (5_000, 100_000, -400_000, 0));
    // The next frame takes it through the left wall.
    let later = resolve(&after, &arena(), &left_paddle(), &right_paddle(), 25, &trig(0));
    assert_eq!(state(&later), (5_000, 100_000, 400_000, 0));
}

#[test]
fn miss_just_off_the_face() {
    let above = ball(19_000, 252_499, 11_000, 500_000, -400_000, 300_000);
    assert_eq!(paddle_contact(&above, &arena(), &left_paddle(), &right_paddle(), 50), None);
    let below = ball(19_000, 332_501, 11_000, 500_000, -400_000, 300_000);
    assert_eq!(paddle_contact(&below, &arena(), &left_paddle(), &right_paddle(), 50), None);
    let after = resolve(&above, &arena(), &left_paddle(), &right_paddle(), 50, &trig(0));
    assert_eq!(state(&after), (1_000, 267_499, 400_000, 300_000));
}

#[test]
fn degenerate_motion() {
    // On the plane of the left paddle, in front of its face, moving straight down.
    let b = ball(9_000, 250_000, 11_000, 400_000, 0, 400_000);
    assert_eq!(paddle_contact(&b, &arena(), &left_paddle(), &right_paddle(), 25), None);
    let after = resolve(&b, &arena(), &left_paddle(), &right_paddle(), 25, &trig(0));
    assert_eq!(state(&after), (9_000, 260_000, 0, 400_000));
    // Straight up through the top wall: only the wall acts.
    let b = ball(9_000, 5_000, 11_000, 400_000, 0, -400_000);
    assert_eq!(paddle_contact(&b, &arena(), &left_paddle(), &right_paddle(), 25), None);
    let after = resolve(&b, &arena(), &left_paddle(), &right_paddle(), 25, &trig(0));
    assert_eq!(state(&after), (9_000, 5_000, 0, 400_000));
}

#[test]
fn end_to_end_scenario() {
    let b = ball(400_000, 300_000, 11_000, 400_000, -400_000, 0);
    assert_eq!(integrate(&b, 1000), (0, 300_000));
    let c = paddle_contact(&b, &arena(), &left_paddle(), &right_paddle(), 1000);
    assert_eq!(c, Some(Contact { side: Side::Left, angle: 0 }));
    let after = advance(&b, &arena(), &left_paddle(), &right_paddle(), 1000, trig);
    assert_eq!(after.vx(), 400_000);
    assert_eq!(after.vy(), 0);
    // 22 whole milliseconds are left at the plane of the paddle, 9 px.
    assert_eq!(after.x(), 17_800);
    assert_eq!(after.y(), 300_000);
}

#[test]
fn right_paddle_bounce_starts_at_its_plane() {
    let b = ball(775_000, 300_000, 11_000, 400_000, 400_000, 0);
    let c = paddle_contact(&b, &arena(), &left_paddle(), &right_paddle(), 25);
    assert_eq!(c, Some(Contact { side: Side::Right, angle: 0 }));
    // The left edge is put to the plane of the paddle, 791 px, and the
    // ball sent leftward from there for -15 ms; that leaves it beyond the
    // right wall, which turns it about once more.
    let after = resolve(&b, &arena(), &left_paddle(), &right_paddle(), 25, &trig(0));
    assert_eq!(state(&after), (781_000, 300_000, 400_000, 0));
}

#[test]
fn right_paddle_bounce_in_a_wide_arena() {
    let wide = Arena::new(WHITE, 900_000, 600_000).unwrap();
    let b = ball(775_000, 295_000, 11_000, 500_000, 400_000, 300_000);
    let c = paddle_contact(&b, &wide, &left_paddle(), &right_paddle(), 25);
    // The line meets 791 px at y = 295 + 7.5 * 16 / 10 = 307 px, 7 px below
    // the middle of the face.
    assert_eq!(c, Some(Contact { side: Side::Right, angle: 183_259 }));
    let after = resolve(&b, &wide, &left_paddle(), &right_paddle(), 25, &steep());
    assert_eq!(state(&after), (794_750, 300_505, -250_000, 433_012));
}

#[test]
fn ball_that_does_not_reach_a_plane_is_not_struck() {
    let b = ball(20_000, 300_000, 11_000, 400_000, -400_000, 0);
    assert_eq!(paddle_contact(&b, &arena(), &left_paddle(), &right_paddle(), 25), None);
    // It stops exactly on the plane: no crossing yet.
    let b = ball(19_000, 300_000, 11_000, 400_000, -400_000, 0);
    assert_eq!(paddle_contact(&b, &arena(), &left_paddle(), &right_paddle(), 25), None);
    // One millisecond more takes it across.
    assert!(paddle_contact(&b, &arena(), &left_paddle(), &right_paddle(), 26).is_some());
}

#[test]
fn ball_behind_a_paddle_is_not_struck() {
    let b = ball(8_000, 300_000, 11_000, 400_000, -400_000, 0);
    assert_eq!(paddle_contact(&b, &arena(), &left_paddle(), &right_paddle(), 10), None);
    let b = ball(781_000, 300_000, 11_000, 400_000, 400_000, 0);
    assert_eq!(paddle_contact(&b, &arena(), &left_paddle(), &right_paddle(), 10), None);
}

#[test]
fn wall_and_paddle_in_one_frame() {
    // The top wall turns the ball about before it is held against the paddle.
    let top = Paddle::new(WHITE, 4_000, 0, 5_000, 80_000, 1_200_000, 0, 0).unwrap();
    let b = ball(19_000, 2_000, 11_000, 500_000, -400_000, -300_000);
    let c = paddle_contact(&b, &arena(), &top, &right_paddle(), 50);
    // Approach (-1, 13) px; the line from (19, 2) px meets 9 px at y = 7.5 px.
    assert_eq!(c, Some(Contact { side: Side::Left, angle: 850_847 }));
    let after = resolve(&b, &arena(), &top, &right_paddle(), 50, &steep());
    assert_eq!(state(&after), (15_250, 18_325, 250_000, 433_012));
}

#[test]
fn speed_conservation() {
    let mut b = ball(19_000, 270_000, 11_000, 500_000, -400_000, 300_000);
    let mut bounced = false;
    let mut frame = 0;
    while frame < 400 {
        let before = (b.vx() as i64).pow(2) + (b.vy() as i64).pow(2);
        let struck = paddle_contact(&b, &arena(), &left_paddle(), &right_paddle(), 25).is_some();
        b = advance(&b, &arena(), &left_paddle(), &right_paddle(), 25, trig);
        let after = (b.vx() as i64).pow(2) + (b.vy() as i64).pow(2);
        let speed = b.speed() as i64;
        // Never longer than the speed, and longer with two units more.
        let longer = (b.vx().abs() as i64 + 2).pow(2) + (b.vy().abs() as i64 + 2).pow(2);
        assert_eq!(speed, 500_000);
        assert!(after <= speed * speed);
        assert!(speed * speed < longer);
        if struck {
            bounced = true;
        } else {
            assert_eq!(after, before);
        }
        frame += 1;
    }
    assert!(bounced);
}

#[test]
fn boundary_containment() {
    // A slow paddle-free flight: the ball never leaves the arena.
    let far = Paddle::new(WHITE, -50_000, 0, 5_000, 80_000, 1_200_000, 0, 0).unwrap();
    let mut b = ball(400_000, 300_000, 11_000, 500_000, -400_000, 300_000);
    let mut frame = 0;
    while frame < 2_000 {
        b = advance(&b, &arena(), &far, &far, 25, trig);
        assert!(0 <= b.x() && b.x() <= 800_000 - 11_000);
        assert!(0 <= b.y() && b.y() <= 600_000 - 11_000);
        frame += 1;
    }
}

#[test]
fn bounce_next_to_a_wall_can_leave_the_arena() {
    let top = Paddle::new(WHITE, 4_000, 0, 5_000, 80_000, 1_200_000, 0, 0).unwrap();
    let b = ball(18_000, 1_200, 11_000, 401_996, -400_000, -40_000);
    let after = resolve(&b, &arena(), &top, &right_paddle(), 25, &steep());
    assert_eq!(state(&after), (9_401, -396, 200_998, -348_138));
    // The top wall brings it back in the frame after.
    let later = resolve(&after, &arena(), &top, &right_paddle(), 25, &steep());
    assert_eq!(state(&later), (14_425, 9_099, 200_998, 348_138));
}

#[test]
fn long_frame_can_leave_the_arena() {
    // Two seconds take the ball 700 px beyond the top wall of an arena that
    // is 600 px high: the mirror image lies below the bottom wall.
    let b = ball(400_000, 100_000, 11_000, 400_000, 0, -400_000);
    let after = resolve(&b, &arena(), &left_paddle(), &right_paddle(), 2_000, &trig(0));
    assert_eq!(state(&after), (400_000, 700_000, 0, 400_000));
    let later = resolve(&after, &arena(), &left_paddle(), &right_paddle(), 25, &trig(0));
    assert_eq!(state(&later), (400_000, 468_000, 0, -400_000));
}

#[test]
fn coordinates_saturate_at_the_end_of_their_range() {
    let b = ball(i32::MAX - 10, 0, 11_000, 400_000, 0, 400_000);
    let huge = Arena::new(WHITE, i32::MAX, i32::MAX).unwrap();
    let after = resolve(&b, &huge, &left_paddle(), &right_paddle(), 25, &trig(0));
    // Beyond the right wall by construction: mirrored back inside.
    assert_eq!(state(&after), (2_147_461_657, 10_000, 0, 400_000));
    let tiny = Arena::new(WHITE, 1, 1).unwrap();
    let fast = ball(0, 0, 1, i32::MAX, i32::MAX, 0);
    let after = resolve(&fast, &tiny, &left_paddle(), &right_paddle(), u32::MAX, &trig(0));
    assert_eq!(after.x(), i32::MIN);
    assert_eq!(after.vx(), -i32::MAX);
}

#[test]
fn advance_asks_for_the_heading_of_the_bounce_angle_only() {
    let b = ball(19_000, 272_500, 11_000, 500_000, -400_000, 300_000);
    let after = advance(&b, &arena(), &left_paddle(), &right_paddle(), 50, |angle| {
        assert_eq!(angle, 523_598);
        Heading::new(8_660_254_037, 5_000_000_000).unwrap()
    });
    assert_eq!(state(&after), (19_825, 286_250, 433_012, 250_000));
    let free = ball(400_000, 300_000, 11_000, 500_000, -400_000, 300_000);
    let after = advance(&free, &arena(), &left_paddle(), &right_paddle(), 50, |_| {
        panic!("no paddle is struck in this frame")
    });
    assert_eq!(state(&after), (380_000, 315_000, -400_000, 300_000));
}
