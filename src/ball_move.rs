//! Ball motion: integrates the ball's position from its velocity.
use vstd::prelude::*;
use crate::pong::{Pong, Vector2};

verus! {

/// Where a point at `position` moving at `velocity` stands after `dt`
/// milliseconds, as exact integers.
pub open spec fn advanced_x(position: Vector2, velocity: Vector2, dt: int) -> int {
    position.x + velocity.x * dt
}

pub open spec fn advanced_y(position: Vector2, velocity: Vector2, dt: int) -> int {
    position.y + velocity.y * dt
}

/// The advanced position fits in the fixed-point coordinates.
pub open spec fn advance_fits(position: Vector2, velocity: Vector2, dt: int) -> bool {
    &&& i64::MIN <= advanced_x(position, velocity, dt) <= i64::MAX
    &&& i64::MIN <= advanced_y(position, velocity, dt) <= i64::MAX
}

/// The position after `dt` milliseconds.
pub open spec fn advanced(position: Vector2, velocity: Vector2, dt: int) -> Vector2 {
    Vector2 {
        x: advanced_x(position, velocity, dt) as i64,
        y: advanced_y(position, velocity, dt) as i64,
    }
}

/// A velocity component times a duration stays far enough inside `i128` for
/// a coordinate to be added to it.
proof fn lemma_step_bounds(v: i64, dt: u64)
    ensures
        i64::MIN * (u64::MAX as int) <= v * dt <= i64::MAX * (u64::MAX as int),
{
    assert(i64::MIN * (u64::MAX as int) <= v * dt <= i64::MAX * (u64::MAX as int)) by (nonlinear_arith)
        requires
            i64::MIN <= v <= i64::MAX,
            0 <= dt <= u64::MAX,
    ;
}

/// Whether the ball of `pong` can move for `dt` milliseconds without leaving
/// the fixed-point coordinates.
pub fn ball_advance_fits(pong: &Pong, dt: u64) -> (r: bool)
    ensures
        r == advance_fits(pong.ball_position, pong.ball.velocity, dt as int),
{
    proof {
        lemma_step_bounds(pong.ball.velocity.x, dt);
        lemma_step_bounds(pong.ball.velocity.y, dt);
    }
    let dx: i128 = pong.ball.velocity.x as i128 * dt as i128;
    let dy: i128 = pong.ball.velocity.y as i128 * dt as i128;
    let x: i128 = pong.ball_position.x as i128 + dx;
    let y: i128 = pong.ball_position.y as i128 + dy;
    i64::MIN as i128 <= x && x <= i64::MAX as i128 && i64::MIN as i128 <= y && y <= i64::MAX as i128
}

/// Moves the ball by its velocity.
pub struct BallMoveSystem;

impl BallMoveSystem {
    /// Moves the ball by `velocity * dt`, where `dt` is the time elapsed since
    /// the previous frame in milliseconds.
    pub fn run(&self, pong: &mut Pong, dt: u64)
        requires
            advance_fits(old(pong).ball_position, old(pong).ball.velocity, dt as int),
        ensures
            *final(pong) == (Pong {
                ball_position: advanced(old(pong).ball_position, old(pong).ball.velocity, dt as int),
                ..*old(pong)
            }),
            final(pong).ball_position.x == old(pong).ball_position.x + old(pong).ball.velocity.x * dt,
            final(pong).ball_position.y == old(pong).ball_position.y + old(pong).ball.velocity.y * dt,
    {
        let dx: i128 = pong.ball.velocity.x as i128 * dt as i128;
        let dy: i128 = pong.ball.velocity.y as i128 * dt as i128;
        pong.ball_position.x = (pong.ball_position.x as i128 + dx) as i64;
        pong.ball_position.y = (pong.ball_position.y as i128 + dy) as i64;
    }
}

} // verus!
