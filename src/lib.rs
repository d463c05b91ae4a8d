//! A small Pong simulation core: two paddles and a ball in a rectangular arena.
//!
//! All geometry is held in fixed point: one world unit is `UNIT` sub-units,
//! time is measured in milliseconds, and a velocity is in sub-units per
//! millisecond (numerically, world units per second).

pub mod pong;
pub mod paddle;
pub mod ball_move;
pub mod ball_bounce;
pub mod score;
pub mod frame;
pub mod laws;

pub use ball_bounce::BallBounceSystem;
pub use ball_move::BallMoveSystem;
pub use paddle::PaddleSystem;
pub use pong::{Ball, Paddle, Pong, Side};
pub use score::ScoreSystem;
