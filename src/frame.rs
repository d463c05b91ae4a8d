//! The frame driver: the systems run once each, in a fixed order.
use vstd::prelude::*;
use crate::ball_bounce::{bounced, BallBounceSystem};
use crate::ball_move::{advance_fits, advanced, BallMoveSystem};
use crate::paddle::{controlled, paddle_in_range, PaddleSystem};
use crate::pong::{Pong, Side};
use crate::score::{scored, scorer, ScoreSystem};

verus! {

/// The game state after paddle control and ball motion.
pub open spec fn moved(pong: Pong, left_axis: Option<i64>, right_axis: Option<i64>, dt: int) -> Pong {
    Pong {
        left: controlled(pong.left, left_axis, right_axis),
        right: controlled(pong.right, left_axis, right_axis),
        ball_position: advanced(pong.ball_position, pong.ball.velocity, dt),
        ..pong
    }
}

/// The game state after paddle control, ball motion and bounce, before the
/// scoring check.
pub open spec fn before_scoring(pong: Pong, left_axis: Option<i64>, right_axis: Option<i64>, dt: int) -> Pong {
    let m = moved(pong, left_axis, right_axis, dt);
    Pong { ball: bounced(m.ball, m.ball_position, m.left, m.right), ..m }
}

/// The game state after one whole frame.
pub open spec fn after_frame(pong: Pong, left_axis: Option<i64>, right_axis: Option<i64>, dt: int) -> Pong {
    scored(before_scoring(pong, left_axis, right_axis, dt))
}

/// The side of the player who scores in one frame, if any.
pub open spec fn frame_scorer(pong: Pong, left_axis: Option<i64>, right_axis: Option<i64>, dt: int) -> Option<Side> {
    let b = before_scoring(pong, left_axis, right_axis, dt);
    scorer(b.ball, b.ball_position)
}

/// Runs one frame of `dt` milliseconds with the given input axes: paddle
/// control, then ball motion, then bounce, then scoring. Returns the side of
/// the player who scored, if any.
pub fn run_frame(pong: &mut Pong, left_axis: Option<i64>, right_axis: Option<i64>, dt: u64) -> (r: Option<Side>)
    requires
        old(pong).wf(),
        advance_fits(old(pong).ball_position, old(pong).ball.velocity, dt as int),
    ensures
        *final(pong) == after_frame(*old(pong), left_axis, right_axis, dt as int),
        r == frame_scorer(*old(pong), left_axis, right_axis, dt as int),
        final(pong).wf(),
        paddle_in_range(old(pong).left) ==> paddle_in_range(final(pong).left),
        paddle_in_range(old(pong).right) ==> paddle_in_range(final(pong).right),
{
    PaddleSystem.run(pong, left_axis, right_axis);
    BallMoveSystem.run(pong, dt);
    BallBounceSystem.run(pong);
    ScoreSystem.run(pong)
}

} // verus!
