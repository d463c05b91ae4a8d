//! Entity state: the arena constants, the ball, the two paddles and the camera.
use vstd::prelude::*;

verus! {

/// Sub-units in one world unit.
pub const UNIT: i64 = 1000;

pub const ARENA_HEIGHT: i64 = 100_000;
pub const ARENA_WIDTH: i64 = 100_000;
pub const PADDLE_HEIGHT: i64 = 16_000;
pub const PADDLE_WIDTH: i64 = 4_000;
/// Initial horizontal ball speed, in sub-units per millisecond.
pub const BALL_VELOCITY_X: i64 = 50;
/// Initial vertical ball speed, in sub-units per millisecond.
pub const BALL_VELOCITY_Y: i64 = 30;
pub const BALL_RADIUS: i64 = 2_000;

/// Division by two, truncated toward zero (the same for `v` and `-v`).
pub open spec fn halve(v: int) -> int {
    if v >= 0 {
        v / 2
    } else {
        -((-v) / 2)
    }
}

pub fn halve_i128(v: i128) -> (r: i128)
    requires
        v > i128::MIN,
    ensures
        r == halve(v as int),
{
    if v >= 0 {
        v / 2
    } else {
        -((-v) / 2)
    }
}

/// A side of the arena.
#[derive(Clone, Copy, Debug, PartialEq, Eq, Structural)]
pub enum Side {
    Left,
    Right,
}

impl Side {
    /// The name of the input axis that steers this side's paddle.
    pub fn axis_name(&self) -> (r: &'static str)
        ensures
            r@ == match *self {
                Side::Left => "left_paddle"@,
                Side::Right => "right_paddle"@,
            },
    {
        match self {
            Side::Left => "left_paddle",
            Side::Right => "right_paddle",
        }
    }

    /// The number of the player on this side: 1 on the left, 2 on the right.
    pub fn player_number(&self) -> (r: u8)
        ensures
            r == match *self {
                Side::Left => 1u8,
                Side::Right => 2u8,
            },
    {
        match self {
            Side::Left => 1,
            Side::Right => 2,
        }
    }
}

/// A 2D vector in fixed point: a position or a velocity.
#[derive(Clone, Copy, Debug, PartialEq, Eq, Structural)]
pub struct Vector2 {
    pub x: i64,
    pub y: i64,
}

/// A player controlled paddle.
#[derive(Clone, Copy, Debug, PartialEq, Eq, Structural)]
pub struct Paddle {
    pub side: Side,
    pub width: i64,
    pub height: i64,
}

impl Paddle {
    pub open spec fn wf(&self) -> bool {
        0 < self.width && 0 < self.height
    }

    pub fn new(side: Side) -> (r: Paddle)
        ensures
            r.side == side,
            r.width == PADDLE_WIDTH,
            r.height == PADDLE_HEIGHT,
            r.wf(),
    {
        Paddle { side: side, width: PADDLE_WIDTH, height: PADDLE_HEIGHT }
    }
}

/// The ball: its velocity and radius.
#[derive(Clone, Copy, Debug, PartialEq, Eq, Structural)]
pub struct Ball {
    pub velocity: Vector2,
    pub radius: i64,
}

impl Ball {
    /// A ball of positive radius that fits across the arena, whose velocity
    /// components can be negated without overflow.
    pub open spec fn wf(&self) -> bool {
        &&& 0 < self.radius
        &&& 2 * self.radius < ARENA_WIDTH
        &&& 2 * self.radius < ARENA_HEIGHT
        &&& self.velocity.x != i64::MIN
        &&& self.velocity.y != i64::MIN
    }
}

/// The orthographic region that the camera shows.
#[derive(Clone, Copy, Debug, PartialEq, Eq, Structural)]
pub struct Camera {
    pub left: i64,
    pub right: i64,
    pub bottom: i64,
    pub top: i64,
    pub z: i64,
}

/// A paddle entity: the paddle and its center position.
#[derive(Clone, Copy, Debug, PartialEq, Eq, Structural)]
pub struct PaddleEntity {
    pub paddle: Paddle,
    pub position: Vector2,
}

/// The game state: every entity of one play session.
#[derive(Clone, Copy, Debug, PartialEq, Eq, Structural)]
pub struct Pong {
    pub ball: Ball,
    pub ball_position: Vector2,
    pub left: PaddleEntity,
    pub right: PaddleEntity,
    pub camera: Camera,
}

impl Pong {
    /// One ball, a left paddle and a right paddle, each in its place.
    pub open spec fn wf(&self) -> bool {
        &&& self.ball.wf()
        &&& self.left.paddle.wf()
        &&& self.right.paddle.wf()
        &&& self.left.paddle.side == Side::Left
        &&& self.right.paddle.side == Side::Right
    }

    /// The session start: ball, paddles and camera in their initial places.
    pub fn on_start() -> (r: Pong)
        ensures
            r.wf(),
            r.ball == initial_ball(),
            r.ball_position == (Vector2 { x: (ARENA_WIDTH / 2) as i64, y: (ARENA_HEIGHT / 2) as i64 }),
            r.left == initial_paddle(Side::Left),
            r.right == initial_paddle(Side::Right),
            r.camera == initial_camera(),
            crate::paddle::paddle_in_range(r.left),
            crate::paddle::paddle_in_range(r.right),
    {
        let (ball, ball_position) = initialize_ball();
        let (left, right) = initialize_paddles();
        let camera = initialize_camera();
        Pong { ball, ball_position, left, right, camera }
    }
}

pub open spec fn initial_ball() -> Ball {
    Ball { velocity: Vector2 { x: BALL_VELOCITY_X, y: BALL_VELOCITY_Y }, radius: BALL_RADIUS }
}

/// A paddle at the vertical middle of its side's edge.
pub open spec fn initial_paddle(side: Side) -> PaddleEntity {
    PaddleEntity {
        paddle: Paddle { side, width: PADDLE_WIDTH, height: PADDLE_HEIGHT },
        position: Vector2 {
            x: match side {
                Side::Left => (PADDLE_WIDTH / 2) as i64,
                Side::Right => (ARENA_WIDTH - PADDLE_WIDTH / 2) as i64,
            },
            y: (ARENA_HEIGHT / 2) as i64,
        },
    }
}

pub open spec fn initial_camera() -> Camera {
    Camera { left: 0, right: ARENA_WIDTH, bottom: 0, top: ARENA_HEIGHT, z: UNIT }
}

/// The ball at the arena's center with its initial velocity.
pub fn initialize_ball() -> (r: (Ball, Vector2))
    ensures
        r.0 == initial_ball(),
        r.1 == (Vector2 { x: (ARENA_WIDTH / 2) as i64, y: (ARENA_HEIGHT / 2) as i64 }),
{
    let position = Vector2 { x: ARENA_WIDTH / 2, y: ARENA_HEIGHT / 2 };
    let ball = Ball {
        radius: BALL_RADIUS,
        velocity: Vector2 { x: BALL_VELOCITY_X, y: BALL_VELOCITY_Y },
    };
    (ball, position)
}

/// The two paddles, each centered on the vertical middle of its edge.
pub fn initialize_paddles() -> (r: (PaddleEntity, PaddleEntity))
    ensures
        r.0 == initial_paddle(Side::Left),
        r.1 == initial_paddle(Side::Right),
{
    let y: i64 = ARENA_HEIGHT / 2;
    let left = PaddleEntity {
        paddle: Paddle::new(Side::Left),
        position: Vector2 { x: PADDLE_WIDTH / 2, y },
    };
    let right = PaddleEntity {
        paddle: Paddle::new(Side::Right),
        position: Vector2 { x: ARENA_WIDTH - PADDLE_WIDTH / 2, y },
    };
    (left, right)
}

/// The camera covering the whole arena, one unit in front of the sprites.
pub fn initialize_camera() -> (r: Camera)
    ensures
        r == initial_camera(),
{
    Camera { left: 0, right: ARENA_WIDTH, bottom: 0, top: ARENA_HEIGHT, z: UNIT }
}

} // verus!
