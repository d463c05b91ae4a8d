use pong::ball_bounce::{paddle_collision, BallBounceSystem};
use pong::ball_move::{ball_advance_fits, BallMoveSystem};
use pong::frame::run_frame;
use pong::paddle::PaddleSystem;
use pong::pong::{
    initialize_camera, initialize_paddles, Ball, Paddle, Pong, Side, Vector2, ARENA_HEIGHT,
    ARENA_WIDTH, BALL_RADIUS, PADDLE_HEIGHT, PADDLE_WIDTH,
};
use pong::score::{reset_ball, ScoreSystem};

fn ball_at(x: i64, y: i64, vx: i64, vy: i64) -> Pong {
    let mut pong = Pong::on_start();
    pong.ball_position = Vector2 { x, y };
    pong.ball.velocity = Vector2 { x: vx, y: vy };
    pong
}

#[test]
fn session_start_places_entities() {
    let pong = Pong::on_start();
    assert_eq!(pong.ball_position, Vector2 { x: 50_000, y: 50_000 });
    assert_eq!(pong.ball, Ball { velocity: Vector2 { x: 50, y: 30 }, radius: 2_000 });
    assert_eq!(pong.left.paddle, Paddle { side: Side::Left, width: 4_000, height: 16_000 });
    assert_eq!(pong.left.position, Vector2 { x: 2_000, y: 50_000 });
    assert_eq!(pong.right.paddle.side, Side::Right);
    assert_eq!(pong.right.position, Vector2 { x: 98_000, y: 50_000 });
    let camera = initialize_camera();
    assert_eq!((camera.left, camera.right, camera.bottom, camera.top), (0, ARENA_WIDTH, 0, ARENA_HEIGHT));
    let (left, right) = initialize_paddles();
    assert_eq!(left, pong.left);
    assert_eq!(right, pong.right);
}

#[test]
fn paddle_new_has_standard_size() {
    let p = Paddle::new(Side::Right);
    assert_eq!((p.width, p.height), (PADDLE_WIDTH, PADDLE_HEIGHT));
}

#[test]
fn axis_names_and_player_numbers() {
    assert_eq!(Side::Left.axis_name(), "left_paddle");
    assert_eq!(Side::Right.axis_name(), "right_paddle");
    assert_eq!(Side::Left.player_number(), 1);
    assert_eq!(Side::Right.player_number(), 2);
}

#[test]
fn paddle_moves_by_one_and_a_half_per_unit_of_axis() {
    let mut pong = Pong::on_start();
    PaddleSystem.run(&mut pong, Some(1000), Some(-1000));
    assert_eq!(pong.left.position.y, 51_500);
    assert_eq!(pong.right.position.y, 48_500);
    PaddleSystem.run(&mut pong, Some(333), Some(-333));
    assert_eq!(pong.left.position.y, 51_999);
    assert_eq!(pong.right.position.y, 48_001);
}

#[test]
fn paddle_without_input_stays() {
    let mut pong = Pong::on_start();
    PaddleSystem.run(&mut pong, None, Some(500));
    assert_eq!(pong.left.position.y, 50_000);
    assert_eq!(pong.right.position.y, 50_750);
    assert_eq!(pong.left.position.x, 2_000);
}

#[test]
fn paddle_is_clamped_to_arena_for_any_magnitude() {
    let mut pong = Pong::on_start();
    PaddleSystem.run(&mut pong, Some(i64::MAX), Some(i64::MIN));
    assert_eq!(pong.left.position.y, ARENA_HEIGHT - PADDLE_HEIGHT / 2);
    assert_eq!(pong.right.position.y, PADDLE_HEIGHT / 2);
    PaddleSystem.run(&mut pong, Some(1000), Some(-1000));
    assert_eq!(pong.left.position.y, 92_000);
    assert_eq!(pong.right.position.y, 8_000);
    for _ in 0..100 {
        PaddleSystem.run(&mut pong, Some(-1000), Some(1000));
        assert!(pong.left.position.y >= 8_000 && pong.left.position.y <= 92_000);
        assert!(pong.right.position.y >= 8_000 && pong.right.position.y <= 92_000);
    }
}

#[test]
fn ball_motion_is_linear_in_time() {
    let mut pong = Pong::on_start();
    BallMoveSystem.run(&mut pong, 100);
    assert_eq!(pong.ball_position, Vector2 { x: 55_000, y: 53_000 });
    let mut back = ball_at(10_000, 90_000, -7, -3);
    BallMoveSystem.run(&mut back, 1_000);
    assert_eq!(back.ball_position, Vector2 { x: 3_000, y: 87_000 });
}

#[test]
fn ball_motion_with_zero_time_is_no_op() {
    let mut pong = Pong::on_start();
    let before = pong;
    BallMoveSystem.run(&mut pong, 0);
    assert_eq!(pong, before);
}

#[test]
fn top_wall_bounce_is_elastic() {
    let mut pong = ball_at(50_000, 100_000 - BALL_RADIUS, 50, 30);
    BallBounceSystem.run(&mut pong);
    assert_eq!(pong.ball.velocity, Vector2 { x: 50, y: -30 });
    assert_eq!(pong.ball_position, Vector2 { x: 50_000, y: 98_000 });
}

#[test]
fn bottom_wall_bounce_is_elastic() {
    let mut pong = ball_at(50_000, 1_500, -50, -30);
    BallBounceSystem.run(&mut pong);
    assert_eq!(pong.ball.velocity, Vector2 { x: -50, y: 30 });
}

#[test]
fn wall_moving_away_does_not_bounce() {
    let mut pong = ball_at(50_000, 99_000, 50, -30);
    BallBounceSystem.run(&mut pong);
    assert_eq!(pong.ball.velocity, Vector2 { x: 50, y: -30 });
}

#[test]
fn side_wall_bounce_halves_speed() {
    let mut pong = ball_at(BALL_RADIUS, 50_000, -50, 30);
    BallBounceSystem.run(&mut pong);
    assert_eq!(pong.ball.velocity, Vector2 { x: 25, y: 15 });
}

#[test]
fn side_wall_bounce_truncates_toward_zero() {
    let mut pong = ball_at(99_000, 50_000, 51, -31);
    BallBounceSystem.run(&mut pong);
    assert_eq!(pong.ball.velocity, Vector2 { x: -25, y: -15 });
}

#[test]
fn left_paddle_reverses_ball_moving_left() {
    let mut pong = ball_at(6_000, 50_000, -50, 30);
    BallBounceSystem.run(&mut pong);
    assert_eq!(pong.ball.velocity, Vector2 { x: 50, y: 30 });
}

#[test]
fn right_paddle_ignores_ball_moving_left() {
    let mut pong = ball_at(94_000, 50_000, -50, 30);
    BallBounceSystem.run(&mut pong);
    assert_eq!(pong.ball.velocity, Vector2 { x: -50, y: 30 });
}

#[test]
fn right_paddle_reverses_ball_moving_right() {
    let mut pong = ball_at(94_000, 58_000 + BALL_RADIUS, 50, 30);
    BallBounceSystem.run(&mut pong);
    assert_eq!(pong.ball.velocity, Vector2 { x: -50, y: 30 });
}

#[test]
fn paddle_collision_uses_box_grown_by_radius() {
    let ball = Ball { velocity: Vector2 { x: 0, y: 0 }, radius: 2_000 };
    let paddle = Paddle::new(Side::Left);
    let center = Vector2 { x: 2_000, y: 50_000 };
    assert!(paddle_collision(6_000, 60_000, &ball, &paddle, &center));
    assert!(paddle_collision(-2_000, 40_000, &ball, &paddle, &center));
    assert!(!paddle_collision(6_001, 50_000, &ball, &paddle, &center));
    assert!(!paddle_collision(2_000, 60_001, &ball, &paddle, &center));
    assert!(!paddle_collision(2_000, 39_999, &ball, &paddle, &center));
}

#[test]
fn ball_at_left_edge_scores_for_player_two() {
    let mut pong = ball_at(1_000, 70_000, -50, 30);
    assert_eq!(ScoreSystem.run(&mut pong), Some(Side::Right));
    assert_eq!(pong.ball_position, Vector2 { x: ARENA_WIDTH / 2, y: 70_000 });
    assert_eq!(pong.ball.velocity, Vector2 { x: 50, y: 30 });
}

#[test]
fn ball_at_right_edge_scores_for_player_one() {
    let mut pong = ball_at(98_000, 20_000, 25, -15);
    assert_eq!(ScoreSystem.run(&mut pong), Some(Side::Left));
    assert_eq!(pong.ball_position, Vector2 { x: 50_000, y: 20_000 });
    assert_eq!(pong.ball.velocity, Vector2 { x: -25, y: -15 });
}

#[test]
fn ball_inside_does_not_score() {
    let mut pong = ball_at(2_001, 50_000, -50, 30);
    let before = pong;
    assert_eq!(ScoreSystem.run(&mut pong), None);
    assert_eq!(pong, before);
}

#[test]
fn reset_ball_keeps_height() {
    let mut ball = Ball { velocity: Vector2 { x: -40, y: 7 }, radius: 2_000 };
    let mut position = Vector2 { x: 500, y: 12_345 };
    reset_ball(&mut ball, &mut position);
    assert_eq!(ball.velocity, Vector2 { x: 40, y: 7 });
    assert_eq!(position, Vector2 { x: 50_000, y: 12_345 });
}

#[test]
fn ball_at_rest_never_moves() {
    let mut pong = ball_at(30_000, 99_500, 0, 0);
    let ball = pong.ball;
    for i in 0..50u64 {
        let scorer = run_frame(&mut pong, Some(1000), Some(-1000), i * 37);
        assert_eq!(scorer, None);
        assert_eq!(pong.ball, ball);
        assert_eq!(pong.ball_position, Vector2 { x: 30_000, y: 99_500 });
    }
}

#[test]
fn end_to_end_frame_bounces_then_scores() {
    let mut pong = Pong::on_start();
    // At x = 98 the ball touches the right wall and also stands on the goal
    // line: the wall halves and reverses it, then the goal resets it.
    assert_eq!(run_frame(&mut pong, None, None, 960), Some(Side::Left));
    assert_eq!(pong.ball_position, Vector2 { x: 50_000, y: 78_800 });
    assert_eq!(pong.ball.velocity, Vector2 { x: 25, y: 15 });
}

#[test]
fn end_to_end_by_systems() {
    let mut pong = Pong::on_start();
    BallMoveSystem.run(&mut pong, 960);
    assert_eq!(pong.ball_position.x, 98_000);
    BallBounceSystem.run(&mut pong);
    assert_eq!(pong.ball.velocity, Vector2 { x: -25, y: 15 });
}

#[test]
fn frame_scores_after_crossing_goal_line() {
    let mut pong = ball_at(3_000, 80_000, -50, 0);
    assert_eq!(run_frame(&mut pong, None, None, 40), Some(Side::Right));
    assert_eq!(pong.ball_position, Vector2 { x: 50_000, y: 80_000 });
    // The left wall turned it to 25, the reset reversed it again.
    assert_eq!(pong.ball.velocity, Vector2 { x: -25, y: 0 });
}

#[test]
fn paddle_collision_is_exact_for_odd_sizes() {
    let ball = Ball { velocity: Vector2 { x: 0, y: 0 }, radius: 2_000 };
    let paddle = Paddle { side: Side::Left, width: 4_001, height: 16_001 };
    let center = Vector2 { x: 2_000, y: 50_000 };
    // Edges at x = -2000.5 and 6000.5, y = 39999.5 and 60000.5.
    assert!(paddle_collision(6_000, 50_000, &ball, &paddle, &center));
    assert!(!paddle_collision(6_001, 50_000, &ball, &paddle, &center));
    assert!(paddle_collision(-2_000, 50_000, &ball, &paddle, &center));
    assert!(!paddle_collision(-2_001, 50_000, &ball, &paddle, &center));
    assert!(paddle_collision(2_000, 60_000, &ball, &paddle, &center));
    assert!(!paddle_collision(2_000, 60_001, &ball, &paddle, &center));
    assert!(paddle_collision(2_000, 40_000, &ball, &paddle, &center));
    assert!(!paddle_collision(2_000, 39_999, &ball, &paddle, &center));
}

#[test]
fn advance_fit_check_matches_coordinate_range() {
    let pong = Pong::on_start();
    assert!(ball_advance_fits(&pong, 1_000));
    assert!(!ball_advance_fits(&pong, u64::MAX));
    let edge = ball_at(i64::MAX - 50, 0, 50, 0);
    assert!(ball_advance_fits(&edge, 1));
    assert!(!ball_advance_fits(&edge, 2));
    let low = ball_at(i64::MIN + 30, 0, -30, -1);
    assert!(ball_advance_fits(&low, 1));
    assert!(!ball_advance_fits(&low, 2));
}

#[test]
fn two_moves_equal_one_move_of_summed_time() {
    let mut twice = ball_at(10_000, 20_000, 37, -11);
    let mut once = twice;
    BallMoveSystem.run(&mut twice, 130);
    BallMoveSystem.run(&mut twice, 270);
    BallMoveSystem.run(&mut once, 400);
    assert_eq!(twice, once);
}

#[test]
fn paddles_stay_in_range_through_frames() {
    let mut pong = Pong::on_start();
    for i in 0..200i64 {
        let axis = if i % 3 == 0 { None } else { Some((i - 100) * 977) };
        run_frame(&mut pong, axis, axis.map(|a| -a), 10);
        assert!(pong.left.position.y >= 8_000 && pong.left.position.y <= 92_000);
        assert!(pong.right.position.y >= 8_000 && pong.right.position.y <= 92_000);
    }
}
