//! Properties of the simulation, stated over the systems' models.
use vstd::prelude::*;
use crate::ball_bounce::{bounce_vertical, bounced, collides, hits_side_wall, moves_toward, paddle_bounced, wall_bounced};
use crate::ball_move::{advance_fits, advanced};
use crate::frame::{after_frame, frame_scorer};
use crate::paddle::{axis_for, controlled, paddle_in_range, paddle_max_y, paddle_min_y};
use crate::pong::{halve, Ball, PaddleEntity, Pong, Side, Vector2, ARENA_WIDTH};

verus! {

/// Whenever its axis has a value, whatever its magnitude, a paddle's vertical
/// center ends within `[PADDLE_HEIGHT / 2, ARENA_HEIGHT - PADDLE_HEIGHT / 2]`.
pub proof fn paddle_stays_in_arena(e: PaddleEntity, left_axis: Option<i64>, right_axis: Option<i64>)
    requires
        axis_for(e.paddle.side, left_axis, right_axis) is Some,
    ensures
        paddle_min_y() <= controlled(e, left_axis, right_axis).position.y <= paddle_max_y(),
{
}

/// A paddle whose center lies in the paddle range stays there, with or
/// without input, through paddle control and through a whole frame.
pub proof fn paddles_stay_in_range(pong: Pong, left_axis: Option<i64>, right_axis: Option<i64>, dt: nat)
    requires
        paddle_in_range(pong.left),
        paddle_in_range(pong.right),
    ensures
        paddle_in_range(controlled(pong.left, left_axis, right_axis)),
        paddle_in_range(controlled(pong.right, left_axis, right_axis)),
        paddle_in_range(after_frame(pong, left_axis, right_axis, dt as int).left),
        paddle_in_range(after_frame(pong, left_axis, right_axis, dt as int).right),
{
}

/// Ball motion is linear in the elapsed time: the new position is the old
/// one plus `velocity * dt`.
pub proof fn ball_motion_is_linear(position: Vector2, velocity: Vector2, dt: nat)
    requires
        advance_fits(position, velocity, dt as int),
    ensures
        advanced(position, velocity, dt as int).x == position.x + velocity.x * dt,
        advanced(position, velocity, dt as int).y == position.y + velocity.y * dt,
{
}

/// No time elapsed, no motion.
pub proof fn ball_motion_zero_time_is_no_op(position: Vector2, velocity: Vector2)
    ensures
        advance_fits(position, velocity, 0),
        advanced(position, velocity, 0) == position,
{
}

/// Moving for `dt1` and then for `dt2` milliseconds is moving for
/// `dt1 + dt2` milliseconds.
pub proof fn ball_motion_composes(position: Vector2, velocity: Vector2, dt1: nat, dt2: nat)
    requires
        advance_fits(position, velocity, dt1 as int),
        advance_fits(advanced(position, velocity, dt1 as int), velocity, dt2 as int),
    ensures
        advance_fits(position, velocity, (dt1 + dt2) as int),
        advanced(advanced(position, velocity, dt1 as int), velocity, dt2 as int)
            == advanced(position, velocity, (dt1 + dt2) as int),
{
    assert(velocity.x * (dt1 + dt2) == velocity.x * dt1 + velocity.x * dt2) by (nonlinear_arith);
    assert(velocity.y * (dt1 + dt2) == velocity.y * dt1 + velocity.y * dt2) by (nonlinear_arith);
}

/// Away from the side walls, the top and bottom walls reverse the vertical
/// velocity without changing its magnitude, exactly when the ball touches
/// them moving outward; the paddles never change it.
pub proof fn top_bottom_bounce_is_elastic(ball: Ball, position: Vector2, left: PaddleEntity, right: PaddleEntity)
    requires
        ball.wf(),
        !hits_side_wall(position.x as int, ball.radius as int, ball.velocity.x as int),
    ensures
        bounced(ball, position, left, right).velocity.y
            == bounce_vertical(position.y as int, ball.radius as int, ball.velocity.y as int),
        bounced(ball, position, left, right).velocity.y == ball.velocity.y
            || bounced(ball, position, left, right).velocity.y == -ball.velocity.y,
{
}

/// A side wall reverses the horizontal velocity and halves both components.
pub proof fn side_wall_bounce_is_lossy(ball: Ball, position: Vector2)
    requires
        ball.wf(),
        hits_side_wall(position.x as int, ball.radius as int, ball.velocity.x as int),
    ensures
        wall_bounced(ball, position).velocity.x == -halve(ball.velocity.x as int),
        wall_bounced(ball, position).velocity.y
            == halve(bounce_vertical(position.y as int, ball.radius as int, ball.velocity.y as int)),
{
}

/// A side-wall hit survives the paddle checks unless the ball also overlaps
/// the paddle it now moves toward: then both components end halved (toward
/// zero), the horizontal one reversed, the vertical one reversed too when a
/// top or bottom wall fires. Even components are halved exactly.
pub proof fn side_wall_bounce_through_paddles(ball: Ball, position: Vector2, left: PaddleEntity, right: PaddleEntity)
    requires
        ball.wf(),
        left.paddle.side == Side::Left,
        right.paddle.side == Side::Right,
        ({
            let (x, y, r, vx) = (position.x as int, position.y as int, ball.radius as int, ball.velocity.x as int);
            ||| (x <= r && vx < 0 && !collides(x, y, r, right.paddle, right.position))
            ||| (x >= ARENA_WIDTH - r && vx > 0 && !collides(x, y, r, left.paddle, left.position))
        }),
    ensures
        bounced(ball, position, left, right).velocity.x == -halve(ball.velocity.x as int),
        bounced(ball, position, left, right).velocity.y
            == halve(bounce_vertical(position.y as int, ball.radius as int, ball.velocity.y as int)),
        ball.velocity.x % 2 == 0 ==> 2 * bounced(ball, position, left, right).velocity.x == -ball.velocity.x,
        ball.velocity.y % 2 == 0 ==> 2 * bounced(ball, position, left, right).velocity.y
            == bounce_vertical(position.y as int, ball.radius as int, ball.velocity.y as int),
{
}

/// A paddle changes only the horizontal velocity, and reverses it only when
/// the ball overlaps it while moving toward it.
pub proof fn paddle_bounce_reverses_only_x(ball: Ball, position: Vector2, entity: PaddleEntity)
    requires
        ball.wf(),
    ensures
        paddle_bounced(ball, position, entity).velocity.y == ball.velocity.y,
        paddle_bounced(ball, position, entity).radius == ball.radius,
        ({
            let hit = collides(position.x as int, position.y as int, ball.radius as int, entity.paddle, entity.position)
                && moves_toward(entity.paddle.side, ball.velocity.x as int);
            &&& hit ==> paddle_bounced(ball, position, entity).velocity.x == -ball.velocity.x
            &&& !hit ==> paddle_bounced(ball, position, entity).velocity.x == ball.velocity.x
        }),
{
}

/// A ball at rest inside the goal lines stays where it is through a frame,
/// keeps its velocity and radius, and scores for nobody.
pub proof fn ball_at_rest_is_stable(pong: Pong, left_axis: Option<i64>, right_axis: Option<i64>, dt: nat)
    requires
        pong.wf(),
        pong.ball.velocity == (Vector2 { x: 0, y: 0 }),
        pong.ball.radius < pong.ball_position.x < ARENA_WIDTH - pong.ball.radius,
    ensures
        advance_fits(pong.ball_position, pong.ball.velocity, dt as int),
        after_frame(pong, left_axis, right_axis, dt as int).ball == pong.ball,
        after_frame(pong, left_axis, right_axis, dt as int).ball_position == pong.ball_position,
        after_frame(pong, left_axis, right_axis, dt as int).wf(),
        frame_scorer(pong, left_axis, right_axis, dt as int) is None,
{
}

/// One input snapshot per frame: left axis, right axis, elapsed milliseconds.
pub type FrameInput = (Option<i64>, Option<i64>, u64);

/// The game state after running the frames of `inputs` in order.
pub open spec fn after_frames(pong: Pong, inputs: Seq<FrameInput>) -> Pong
    decreases inputs.len(),
{
    if inputs.len() == 0 {
        pong
    } else {
        let last = inputs.last();
        after_frame(after_frames(pong, inputs.drop_last()), last.0, last.1, last.2 as int)
    }
}

/// However many frames run, a ball at rest inside the goal lines never moves,
/// never bounces and never scores.
pub proof fn ball_at_rest_never_moves(pong: Pong, inputs: Seq<FrameInput>)
    requires
        pong.wf(),
        pong.ball.velocity == (Vector2 { x: 0, y: 0 }),
        pong.ball.radius < pong.ball_position.x < ARENA_WIDTH - pong.ball.radius,
    ensures
        after_frames(pong, inputs).ball == pong.ball,
        after_frames(pong, inputs).ball_position == pong.ball_position,
        after_frames(pong, inputs).wf(),
        forall|i: int|
            0 <= i < inputs.len() ==> (#[trigger] frame_scorer(
                after_frames(pong, inputs.take(i)),
                inputs[i].0,
                inputs[i].1,
                inputs[i].2 as int,
            )) is None,
    decreases inputs.len(),
{
    if inputs.len() > 0 {
        let last = inputs.last();
        let prefix = inputs.drop_last();
        ball_at_rest_never_moves(pong, prefix);
        ball_at_rest_is_stable(after_frames(pong, prefix), last.0, last.1, last.2 as nat);
        assert forall|i: int| 0 <= i < inputs.len() implies (#[trigger] frame_scorer(
            after_frames(pong, inputs.take(i)),
            inputs[i].0,
            inputs[i].1,
            inputs[i].2 as int,
        )) is None by {
            if i < prefix.len() {
                assert(inputs.take(i) == prefix.take(i));
                assert(inputs[i] == prefix[i]);
            } else {
                assert(inputs.take(i) == prefix);
            }
        }
    }
}

} // verus!
