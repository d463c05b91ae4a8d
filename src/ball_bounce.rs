//! Collision and bounce: the ball against the arena walls and the paddles.
use vstd::prelude::*;
use crate::pong::{halve, halve_i128, Ball, Paddle, PaddleEntity, Pong, Side, Vector2, ARENA_HEIGHT, ARENA_WIDTH};

verus! {

/// Vertical velocity after the top and bottom walls: negated when the ball
/// touches the top wall moving up, or the bottom wall moving down.
pub open spec fn bounce_vertical(y: int, radius: int, vy: int) -> int {
    if y >= ARENA_HEIGHT - radius && vy > 0 {
        -vy
    } else if y <= radius && vy < 0 {
        -vy
    } else {
        vy
    }
}

/// The ball touches the right wall moving right, or the left wall moving left.
pub open spec fn hits_side_wall(x: int, radius: int, vx: int) -> bool {
    ||| (x >= ARENA_WIDTH - radius && vx > 0)
    ||| (x <= radius && vx < 0)
}

/// The ball after the wall rules. A top or bottom wall reverses the vertical
/// velocity; a side wall then reverses the horizontal velocity and halves
/// both components.
pub open spec fn wall_bounced(ball: Ball, position: Vector2) -> Ball {
    let vy = bounce_vertical(position.y as int, ball.radius as int, ball.velocity.y as int);
    if hits_side_wall(position.x as int, ball.radius as int, ball.velocity.x as int) {
        Ball {
            velocity: Vector2 { x: halve(-ball.velocity.x) as i64, y: halve(vy) as i64 },
            ..ball
        }
    } else {
        Ball { velocity: Vector2 { x: ball.velocity.x, y: vy as i64 }, ..ball }
    }
}

/// The ball's center lies in the paddle's box grown by the radius on all
/// four sides: `center ± size / 2 ± radius` on each axis, bounds included.
/// `center` is the paddle's center. Doubled, so that an odd size is exact.
pub open spec fn collides(ball_x: int, ball_y: int, radius: int, paddle: Paddle, center: Vector2) -> bool {
    &&& 2 * (center.x - radius) - paddle.width <= 2 * ball_x
    &&& 2 * ball_x <= 2 * (center.x + radius) + paddle.width
    &&& 2 * (center.y - radius) - paddle.height <= 2 * ball_y
    &&& 2 * ball_y <= 2 * (center.y + radius) + paddle.height
}

/// The ball moves toward the paddle's side.
pub open spec fn moves_toward(side: Side, vx: int) -> bool {
    match side {
        Side::Left => vx < 0,
        Side::Right => vx > 0,
    }
}

/// The ball after one paddle: its horizontal velocity reversed when it
/// overlaps the paddle while moving toward it.
pub open spec fn paddle_bounced(ball: Ball, position: Vector2, entity: PaddleEntity) -> Ball {
    if collides(position.x as int, position.y as int, ball.radius as int, entity.paddle, entity.position)
        && moves_toward(entity.paddle.side, ball.velocity.x as int) {
        Ball { velocity: Vector2 { x: -ball.velocity.x as i64, ..ball.velocity }, ..ball }
    } else {
        ball
    }
}

/// The ball after the walls, then the left paddle, then the right paddle.
pub open spec fn bounced(ball: Ball, position: Vector2, left: PaddleEntity, right: PaddleEntity) -> Ball {
    paddle_bounced(paddle_bounced(wall_bounced(ball, position), position, left), position, right)
}

/// Bounces the ball off the walls and the paddles.
pub struct BallBounceSystem;

fn bounce_off_walls(ball: &mut Ball, ball_x: i64, ball_y: i64)
    requires
        old(ball).wf(),
    ensures
        *final(ball) == wall_bounced(*old(ball), Vector2 { x: ball_x, y: ball_y }),
        final(ball).wf(),
{
    if ball_y as i128 >= (ARENA_HEIGHT - ball.radius) as i128 && ball.velocity.y > 0 {
        ball.velocity.y = -ball.velocity.y;
    } else if ball_y <= ball.radius && ball.velocity.y < 0 {
        ball.velocity.y = -ball.velocity.y;
    }
    if (ball_x as i128 >= (ARENA_WIDTH - ball.radius) as i128 && ball.velocity.x > 0)
        || (ball_x <= ball.radius && ball.velocity.x < 0) {
        ball.velocity.x = halve_i128(-(ball.velocity.x as i128)) as i64;
        ball.velocity.y = halve_i128(ball.velocity.y as i128) as i64;
    }
}

fn bounce_off_paddle(ball: &mut Ball, ball_x: i64, ball_y: i64, entity: &PaddleEntity)
    requires
        old(ball).wf(),
    ensures
        *final(ball) == paddle_bounced(*old(ball), Vector2 { x: ball_x, y: ball_y }, *entity),
        final(ball).wf(),
{
    if paddle_collision(ball_x, ball_y, ball, &entity.paddle, &entity.position) {
        if entity.paddle.side == Side::Left && ball.velocity.x < 0 {
            ball.velocity.x = -ball.velocity.x;
        } else if entity.paddle.side == Side::Right && ball.velocity.x > 0 {
            ball.velocity.x = -ball.velocity.x;
        }
    }
}

/// Whether a ball centered at `(ball_x, ball_y)` overlaps the paddle centered
/// at `position`.
pub fn paddle_collision(ball_x: i64, ball_y: i64, ball: &Ball, paddle: &Paddle, position: &Vector2) -> (r: bool)
    ensures
        r == collides(ball_x as int, ball_y as int, ball.radius as int, *paddle, *position),
{
    let radius: i128 = ball.radius as i128;
    let left: i128 = 2 * (position.x as i128 - radius) - paddle.width as i128;
    let right: i128 = 2 * (position.x as i128 + radius) + paddle.width as i128;
    let bottom: i128 = 2 * (position.y as i128 - radius) - paddle.height as i128;
    let top: i128 = 2 * (position.y as i128 + radius) + paddle.height as i128;

    let bx: i128 = 2 * ball_x as i128;
    let by: i128 = 2 * ball_y as i128;
    (bx >= left) && (bx <= right) && (by >= bottom) && (by <= top)
}

impl BallBounceSystem {
    /// Applies the wall rules, then checks the ball against both paddles.
    /// Positions are not changed.
    pub fn run(&self, pong: &mut Pong)
        requires
            old(pong).wf(),
        ensures
            *final(pong) == (Pong {
                ball: bounced(old(pong).ball, old(pong).ball_position, old(pong).left, old(pong).right),
                ..*old(pong)
            }),
            final(pong).wf(),
    {
        let ball_x: i64 = pong.ball_position.x;
        let ball_y: i64 = pong.ball_position.y;
        bounce_off_walls(&mut pong.ball, ball_x, ball_y);
        bounce_off_paddle(&mut pong.ball, ball_x, ball_y, &pong.left);
        bounce_off_paddle(&mut pong.ball, ball_x, ball_y, &pong.right);
    }
}

} // verus!
