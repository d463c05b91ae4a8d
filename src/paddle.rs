//! Paddle control: input-driven vertical movement, clamped to the arena.
use vstd::prelude::*;
use crate::pong::{halve, halve_i128, PaddleEntity, Pong, Side, ARENA_HEIGHT, PADDLE_HEIGHT};

verus! {

/// An axis value is given in thousandths of full deflection, so that `1000`
/// is full deflection. Each thousandth moves the paddle by one and a half
/// sub-units (a scale of 1.5 world units per full deflection): the movement
/// is `halve(MOVEMENT_SCALE_TIMES_TWO * value)`.
pub const MOVEMENT_SCALE_TIMES_TWO: i64 = 3;

/// Lowest vertical center a paddle may take.
pub open spec fn paddle_min_y() -> int {
    PADDLE_HEIGHT / 2
}

/// Highest vertical center a paddle may take.
pub open spec fn paddle_max_y() -> int {
    ARENA_HEIGHT - PADDLE_HEIGHT / 2
}

/// Vertical movement, in sub-units, for an axis value.
pub open spec fn movement(value: int) -> int {
    halve(MOVEMENT_SCALE_TIMES_TWO * value)
}

/// `v` limited to `[lo, hi]`: first from above, then from below.
pub open spec fn clamp(v: int, lo: int, hi: int) -> int {
    let capped = if v < hi { v } else { hi };
    if capped > lo { capped } else { lo }
}

/// A paddle's vertical center lies within the arena's paddle range.
pub open spec fn paddle_in_range(e: PaddleEntity) -> bool {
    paddle_min_y() <= e.position.y <= paddle_max_y()
}

/// The axis that steers a paddle of the given side.
pub open spec fn axis_for(side: Side, left_axis: Option<i64>, right_axis: Option<i64>) -> Option<i64> {
    match side {
        Side::Left => left_axis,
        Side::Right => right_axis,
    }
}

/// The new vertical center of a paddle: unchanged without input, else moved
/// and clamped.
pub open spec fn moved_paddle_y(y: int, value: Option<i64>) -> int {
    match value {
        Some(v) => clamp(y + movement(v as int), paddle_min_y(), paddle_max_y()),
        None => y,
    }
}

/// A paddle entity after one frame of control.
pub open spec fn controlled(e: PaddleEntity, left_axis: Option<i64>, right_axis: Option<i64>) -> PaddleEntity {
    PaddleEntity {
        position: crate::pong::Vector2 {
            y: moved_paddle_y(e.position.y as int, axis_for(e.paddle.side, left_axis, right_axis)) as i64,
            ..e.position
        },
        ..e
    }
}

/// Moves the paddles by the current input axes.
pub struct PaddleSystem;

fn control(entity: &mut PaddleEntity, left_axis: Option<i64>, right_axis: Option<i64>)
    ensures
        *final(entity) == controlled(*old(entity), left_axis, right_axis),
        moved_paddle_y(old(entity).position.y as int, axis_for(old(entity).paddle.side, left_axis, right_axis))
            == final(entity).position.y,
{
    let movement = match entity.paddle.side {
        Side::Left => left_axis,
        Side::Right => right_axis,
    };
    if let Some(mv_amount) = movement {
        let scaled_amount: i128 = halve_i128(MOVEMENT_SCALE_TIMES_TWO as i128 * mv_amount as i128);
        let paddle_y: i128 = entity.position.y as i128;
        let target: i128 = paddle_y + scaled_amount;
        let hi: i128 = (ARENA_HEIGHT - PADDLE_HEIGHT / 2) as i128;
        let lo: i128 = (PADDLE_HEIGHT / 2) as i128;
        let capped: i128 = if target < hi { target } else { hi };
        let clamped: i128 = if capped > lo { capped } else { lo };
        entity.position.y = clamped as i64;
    }
}

impl PaddleSystem {
    /// Moves each paddle by the axis of its side, where that axis has a value.
    pub fn run(&self, pong: &mut Pong, left_axis: Option<i64>, right_axis: Option<i64>)
        ensures
            *final(pong) == (Pong {
                left: controlled(old(pong).left, left_axis, right_axis),
                right: controlled(old(pong).right, left_axis, right_axis),
                ..*old(pong)
            }),
            paddle_in_range(old(pong).left) ==> paddle_in_range(final(pong).left),
            paddle_in_range(old(pong).right) ==> paddle_in_range(final(pong).right),
    {
        control(&mut pong.left, left_axis, right_axis);
        control(&mut pong.right, left_axis, right_axis);
    }
}

} // verus!
