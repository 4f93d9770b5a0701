use pong::arena::Arena;
use pong::ball::Ball;
use pong::game::{Event, Game};
use pong::heading::Heading;
use pong::paddle::Paddle;
use pong::scene::{Color, Disc, Scene, Tile};

const WHITE: Color = Color { r: 255, g: 255, b: 255 };
const BLACK: Color = Color { r: 0, g: 0, b: 0 };
const RED: Color = Color { r: 200, g: 10, b: 20 };

fn trig(angle: u32) -> Heading {
    let radians = angle as f64 / 1e6;
    Heading::new((radians.cos() * 1e10).floor() as u64, (radians.sin() * 1e10).floor() as u64)
        .unwrap()
}

fn game_with(ball: Ball) -> Game {
    let arena = Arena::new(BLACK, 800_000, 600_000).unwrap();
    let lpaddle = Paddle::new(WHITE, 4_000, 260_000, 5_000, 80_000, 1_200_000, 0, 0).unwrap();
    let rpaddle = Paddle::new(RED, 791_000, 260_000, 5_000, 80_000, 1_200_000, 0, 0).unwrap();
    Game::new(40, arena, ball, lpaddle, rpaddle).unwrap()
}

fn game() -> Game {
    game_with(Ball::new(WHITE, 400_000, 300_000, 11_000, 400_000, -400_000, 0, 1_047_197).unwrap())
}

#[test]
fn new_game_holds_its_parts_and_is_not_running() {
    let g = game();
    assert_eq!(g.fps(), 40);
    assert!(!g.is_running());
    assert_eq!(g.arena().width(), 800_000);
    assert_eq!(g.arena().height(), 600_000);
    assert_eq!(g.arena().color(), BLACK);
    assert_eq!(g.ball().x(), 400_000);
    assert_eq!(g.ball().y(), 300_000);
    assert_eq!(g.ball().diameter(), 11_000);
    assert_eq!(g.ball().speed(), 400_000);
    assert_eq!(g.ball().vx(), -400_000);
    assert_eq!(g.ball().vy(), 0);
    assert_eq!(g.ball().max_paddle_bounce_angle(), 1_047_197);
    assert_eq!(g.ball().color(), WHITE);
    assert_eq!(g.lpaddle().x(), 4_000);
    assert_eq!(g.lpaddle().y(), 260_000);
    assert_eq!(g.lpaddle().width(), 5_000);
    assert_eq!(g.lpaddle().height(), 80_000);
    assert_eq!(g.lpaddle().speed(), 1_200_000);
    assert_eq!(g.lpaddle().vy(), 0);
    assert_eq!(g.lpaddle().score(), 0);
    assert_eq!(g.lpaddle().color(), WHITE);
    assert_eq!(g.rpaddle().x(), 791_000);
    assert_eq!(g.rpaddle().color(), RED);
}

#[test]
fn game_needs_a_positive_frame_rate() {
    let g = game();
    assert!(Game::new(0, *g.arena(), *g.ball(), *g.lpaddle(), *g.rpaddle()).is_none());
    assert!(Game::new(1, *g.arena(), *g.ball(), *g.lpaddle(), *g.rpaddle()).is_some());
    assert!(Game::new(u32::MAX, *g.arena(), *g.ball(), *g.lpaddle(), *g.rpaddle()).is_some());
}

#[test]
fn parts_reject_what_is_not_positive() {
    assert!(Arena::new(WHITE, 0, 600_000).is_none());
    assert!(Arena::new(WHITE, 800_000, 0).is_none());
    assert!(Arena::new(WHITE, -1, -1).is_none());
    assert!(Arena::new(WHITE, 1, 1).is_some());
    assert!(Paddle::new(WHITE, 0, 0, 0, 80_000, 1, 0, 0).is_none());
    assert!(Paddle::new(WHITE, 0, 0, 5_000, 0, 1, 0, 0).is_none());
    assert!(Paddle::new(WHITE, 0, 0, 5_000, 80_000, 0, 0, 0).is_none());
    assert!(Paddle::new(WHITE, -7, -9, 1, 1, 1, -3, 12).is_some());
    assert!(Ball::new(WHITE, 0, 0, 0, 400_000, 0, 0, 0).is_none());
    assert!(Ball::new(WHITE, 0, 0, 11_000, 0, 0, 0, 0).is_none());
    assert!(Ball::new(WHITE, 0, 0, 11_000, -1, 0, 0, 0).is_none());
    assert!(Ball::new(WHITE, 0, 0, 1, 1, 1, 0, 0).is_some());
}

#[test]
fn ball_velocity_may_not_exceed_its_speed() {
    assert!(Ball::new(WHITE, 0, 0, 11_000, 500_000, 300_000, 400_000, 0).is_some());
    assert!(Ball::new(WHITE, 0, 0, 11_000, 500_000, -300_000, -400_000, 0).is_some());
    assert!(Ball::new(WHITE, 0, 0, 11_000, 500_000, 300_001, 400_000, 0).is_none());
    assert!(Ball::new(WHITE, 0, 0, 11_000, 500_000, 300_000, -400_001, 0).is_none());
    assert!(Ball::new(WHITE, 0, 0, 11_000, i32::MAX, i32::MIN, 0, 0).is_none());
    assert!(Ball::new(WHITE, 0, 0, 11_000, i32::MAX, i32::MAX, 0, 0).is_some());
    assert!(Ball::new(WHITE, 0, 0, 11_000, i32::MAX, i32::MAX, 1, 0).is_none());
}

#[test]
fn ball_velocity_may_not_fall_short_of_its_speed() {
    assert!(Ball::new(WHITE, 0, 0, 11_000, 500_000, 0, 0, 0).is_none());
    assert!(Ball::new(WHITE, 0, 0, 11_000, 500_000, 300_000, 399_000, 0).is_none());
    assert!(Ball::new(WHITE, 0, 0, 11_000, 500_000, 299_998, 399_998, 0).is_none());
    // Up to what rounding down costs.
    assert!(Ball::new(WHITE, 0, 0, 11_000, 500_000, 299_999, 399_999, 0).is_some());
    assert!(Ball::new(WHITE, 0, 0, 11_000, 500_000, -299_999, -399_999, 0).is_some());
    assert!(Ball::new(WHITE, 0, 0, 11_000, 500_000, 0, 499_998, 0).is_some());
    assert!(Ball::new(WHITE, 0, 0, 11_000, 500_000, 0, 499_997, 0).is_none());
}

#[test]
fn ball_bounce_angle_stays_short_of_a_quarter_turn() {
    assert!(Ball::new(WHITE, 0, 0, 11_000, 1, 1, 0, 1_570_796).is_some());
    assert!(Ball::new(WHITE, 0, 0, 11_000, 1, 1, 0, 1_570_797).is_none());
    assert!(Ball::new(WHITE, 0, 0, 11_000, 1, 1, 0, u32::MAX).is_none());
}

#[test]
fn start_sets_the_loop_running() {
    let mut g = game();
    g.start(5_000);
    assert!(g.is_running());
    assert_eq!(g.tick(5_025), 25);
}

#[test]
fn tick_measures_from_the_reading_before() {
    let mut g = game();
    g.start(1_000);
    assert_eq!(g.tick(1_000), 0);
    assert_eq!(g.tick(1_025), 25);
    assert_eq!(g.tick(1_100), 75);
    assert!(g.is_running());
}

#[test]
fn tick_counts_a_clock_that_ran_backwards_as_no_time() {
    let mut g = game();
    g.start(1_000);
    assert_eq!(g.tick(400), 0);
    // The later reading is the one that counts from here on.
    assert_eq!(g.tick(410), 10);
}

#[test]
fn tick_saturates_at_32_bits() {
    let mut g = game();
    g.start(0);
    assert_eq!(g.tick(u32::MAX as u64), u32::MAX);
    assert_eq!(g.tick(u32::MAX as u64 * 2 + 1), u32::MAX);
    assert_eq!(g.tick(u64::MAX), u32::MAX);
}

#[test]
fn quit_ends_the_loop() {
    let mut g = game();
    g.start(0);
    g.handle_input(None);
    assert!(g.is_running());
    g.handle_input(Some(Event::Quit));
    assert!(!g.is_running());
    assert_eq!(g.lpaddle().y(), 260_000);
}

#[test]
fn pointer_places_the_left_paddle() {
    let mut g = game();
    g.handle_input(Some(Event::PointerMoved { y: 100 }));
    assert_eq!(g.lpaddle().y(), 100_000);
    assert_eq!(g.lpaddle().x(), 4_000);
    assert_eq!(g.rpaddle().y(), 260_000);
    g.handle_input(Some(Event::PointerMoved { y: 0 }));
    assert_eq!(g.lpaddle().y(), 0);
    g.handle_input(Some(Event::PointerMoved { y: 520 }));
    assert_eq!(g.lpaddle().y(), 520_000);
}

#[test]
fn pointer_is_held_back_at_the_walls() {
    let mut g = game();
    g.handle_input(Some(Event::PointerMoved { y: -5 }));
    assert_eq!(g.lpaddle().y(), 0);
    g.handle_input(Some(Event::PointerMoved { y: 521 }));
    assert_eq!(g.lpaddle().y(), 520_000);
    g.handle_input(Some(Event::PointerMoved { y: 590 }));
    assert_eq!(g.lpaddle().y(), 520_000);
    g.handle_input(Some(Event::PointerMoved { y: i32::MAX }));
    assert_eq!(g.lpaddle().y(), 520_000);
    g.handle_input(Some(Event::PointerMoved { y: i32::MIN }));
    assert_eq!(g.lpaddle().y(), 0);
}

#[test]
fn paddle_taller_than_the_arena_hangs_from_the_bottom_wall() {
    let arena = Arena::new(BLACK, 800_000, 60_000).unwrap();
    let ball = Ball::new(WHITE, 0, 0, 11_000, 400_000, 400_000, 0, 0).unwrap();
    let paddle = Paddle::new(WHITE, 4_000, 0, 5_000, 80_000, 1_200_000, 0, 0).unwrap();
    let mut g = Game::new(40, arena, ball, paddle, paddle).unwrap();
    g.handle_input(Some(Event::PointerMoved { y: 10 }));
    assert_eq!(g.lpaddle().y(), -20_000);
    g.handle_input(Some(Event::PointerMoved { y: -10 }));
    assert_eq!(g.lpaddle().y(), 0);
}

#[test]
fn update_ball_position_moves_the_ball_only() {
    let mut g = game();
    g.start(7);
    g.update_ball_position(25, trig);
    assert_eq!((g.ball().x(), g.ball().y()), (390_000, 300_000));
    assert_eq!((g.ball().vx(), g.ball().vy()), (-400_000, 0));
    assert_eq!(g.lpaddle().y(), 260_000);
    assert_eq!(g.rpaddle().y(), 260_000);
    assert!(g.is_running());
    assert_eq!(g.tick(7), 0);
}

#[test]
fn update_ball_position_bounces_off_the_left_paddle() {
    let mut g = game();
    g.update_ball_position(1000, trig);
    assert_eq!((g.ball().x(), g.ball().y()), (17_800, 300_000));
    assert_eq!((g.ball().vx(), g.ball().vy()), (400_000, 0));
}

#[test]
fn update_ball_position_reads_the_paddle_where_the_pointer_put_it() {
    let mut g = game();
    g.handle_input(Some(Event::PointerMoved { y: 400 }));
    g.update_ball_position(1000, trig);
    // The paddle is out of the way: the ball goes on to the left wall.
    assert_eq!((g.ball().x(), g.ball().y()), (0, 300_000));
    assert_eq!((g.ball().vx(), g.ball().vy()), (-400_000, 0));
}

#[test]
fn redraw_gives_whole_pixels() {
    let g = game();
    let scene = g.redraw();
    assert_eq!(
        scene,
        Scene {
            background: BLACK,
            ball: Disc { cx: 405, cy: 305, radius: 5, color: WHITE },
            left: Tile { x: 4, y: 260, width: 5, height: 80, color: WHITE },
            right: Tile { x: 791, y: 260, width: 5, height: 80, color: RED },
        }
    );
}

#[test]
fn redraw_rounds_toward_zero() {
    let arena = Arena::new(BLACK, 800_000, 600_000).unwrap();
    let ball = Ball::new(WHITE, -7_600, -400, 1_999, 400_000, 0, 400_000, 0).unwrap();
    let lpaddle = Paddle::new(WHITE, -4_999, -1, 999, 1_000, 1, 0, 0).unwrap();
    let rpaddle = Paddle::new(RED, 1_999, 2_000, 1_001, 2_999, 1, 0, 0).unwrap();
    let scene = Game::new(40, arena, ball, lpaddle, rpaddle).unwrap().redraw();
    // Centre (-7.6 + 0.9995, -0.4 + 0.9995) px.
    assert_eq!(scene.ball, Disc { cx: -6, cy: 0, radius: 0, color: WHITE });
    assert_eq!(scene.left, Tile { x: -4, y: 0, width: 0, height: 1, color: WHITE });
    assert_eq!(scene.right, Tile { x: 1, y: 2, width: 1, height: 2, color: RED });
}

#[test]
fn redraw_limits_the_ball_to_sixteen_bits() {
    let ball = Ball::new(WHITE, i32::MAX, i32::MIN, i32::MAX, 400_000, 0, 400_000, 0).unwrap();
    let scene = game_with(ball).redraw();
    assert_eq!(scene.ball.cx, i16::MAX);
    assert_eq!(scene.ball.cy, i16::MIN);
    assert_eq!(scene.ball.radius, i16::MAX);
    let ball = Ball::new(WHITE, 32_767_000, -32_768_000, 1_000, 400_000, 0, 400_000, 0).unwrap();
    let scene = game_with(ball).redraw();
    assert_eq!(scene.ball.cx, 32_767);
    assert_eq!(scene.ball.cy, -32_767);
}

#[test]
fn update_handles_input_moves_the_ball_and_draws() {
    let mut g = game();
    g.start(0);
    let scene = g.update(25, Some(Event::PointerMoved { y: 100 }), trig);
    assert_eq!(g.lpaddle().y(), 100_000);
    assert_eq!(g.ball().x(), 390_000);
    assert_eq!(scene.left, Tile { x: 4, y: 100, width: 5, height: 80, color: WHITE });
    assert_eq!(scene.ball, Disc { cx: 395, cy: 305, radius: 5, color: WHITE });
    assert_eq!(scene, g.redraw());
    assert!(g.is_running());
}

#[test]
fn update_after_quit_still_finishes_the_frame() {
    let mut g = game();
    g.start(0);
    let scene = g.update(25, Some(Event::Quit), trig);
    assert!(!g.is_running());
    assert_eq!(g.ball().x(), 390_000);
    assert_eq!(scene.ball.cx, 395);
}

#[test]
fn cap_fps_fills_the_frame_budget() {
    let g = game();
    // 40 frames per second leave 25 ms for each.
    assert_eq!(g.cap_fps(0), 25);
    assert_eq!(g.cap_fps(10), 15);
    assert_eq!(g.cap_fps(24), 1);
    assert_eq!(g.cap_fps(25), 0);
    assert_eq!(g.cap_fps(26), 0);
    assert_eq!(g.cap_fps(u64::MAX), 0);
}

#[test]
fn cap_fps_divides_in_whole_milliseconds() {
    let g = game();
    let at = |fps: u32| Game::new(fps, *g.arena(), *g.ball(), *g.lpaddle(), *g.rpaddle()).unwrap();
    assert_eq!(at(1).cap_fps(0), 1000);
    assert_eq!(at(3).cap_fps(0), 333);
    assert_eq!(at(60).cap_fps(6), 10);
    assert_eq!(at(1000).cap_fps(0), 1);
    assert_eq!(at(1001).cap_fps(0), 0);
    assert_eq!(at(u32::MAX).cap_fps(0), 0);
}
