//! Scoring: a ball that reaches a side edge scores for the opposite player
//! and is sent back to the middle.
use vstd::prelude::*;
use crate::pong::{Ball, Pong, Side, Vector2, ARENA_WIDTH};

verus! {

/// The side of the player who scores with the ball at `position`, if any:
/// the right player when the ball reaches the left edge, the left player
/// when it reaches the right edge.
pub open spec fn scorer(ball: Ball, position: Vector2) -> Option<Side> {
    if position.x <= ball.radius {
        Some(Side::Right)
    } else if position.x >= ARENA_WIDTH - ball.radius {
        Some(Side::Left)
    } else {
        None
    }
}

/// The ball with its horizontal velocity reversed.
pub open spec fn reversed_ball(ball: Ball) -> Ball {
    Ball { velocity: Vector2 { x: -ball.velocity.x as i64, ..ball.velocity }, ..ball }
}

/// A position moved to the arena's horizontal middle; the height is kept.
pub open spec fn centered_position(position: Vector2) -> Vector2 {
    Vector2 { x: (ARENA_WIDTH / 2) as i64, ..position }
}

/// The game state after the scoring check.
pub open spec fn scored(pong: Pong) -> Pong {
    if scorer(pong.ball, pong.ball_position) is Some {
        Pong {
            ball: reversed_ball(pong.ball),
            ball_position: centered_position(pong.ball_position),
            ..pong
        }
    } else {
        pong
    }
}

/// Detects goals and resets the ball.
pub struct ScoreSystem;

impl ScoreSystem {
    /// Returns the side of the player who scored this frame, if any, and then
    /// resets the ball.
    pub fn run(&self, pong: &mut Pong) -> (r: Option<Side>)
        requires
            old(pong).wf(),
        ensures
            r == scorer(old(pong).ball, old(pong).ball_position),
            *final(pong) == scored(*old(pong)),
            final(pong).wf(),
    {
        let ball_x: i64 = pong.ball_position.x;
        if ball_x <= pong.ball.radius {
            reset_ball(&mut pong.ball, &mut pong.ball_position);
            Some(Side::Right)
        } else if ball_x >= ARENA_WIDTH - pong.ball.radius {
            reset_ball(&mut pong.ball, &mut pong.ball_position);
            Some(Side::Left)
        } else {
            None
        }
    }
}

/// Reverses the ball's horizontal velocity and moves it to the arena's
/// horizontal middle.
pub fn reset_ball(ball: &mut Ball, position: &mut Vector2)
    requires
        old(ball).wf(),
    ensures
        *final(ball) == reversed_ball(*old(ball)),
        *final(position) == centered_position(*old(position)),
        final(ball).wf(),
{
    ball.velocity.x = -ball.velocity.x;
    position.x = ARENA_WIDTH / 2;
}

} // verus!
