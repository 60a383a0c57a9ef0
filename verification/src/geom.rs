//! Arena, wall and paddle geometry.
//!
//! Coordinates are integers in subunits, 60 subunits to one world unit.
//! Each wall has an outer position and size (for rendering) and a derived
//! inner surface, the outer position moved inward by half the wall
//! thickness, which is the effective collision boundary. Paddle resting
//! positions are derived from the left/right wall's inner surface plus a
//! fixed offset, so paddle placement is coupled to wall geometry.

use vstd::prelude::*;

verus! {

/// Subunits in one world unit; the coordinate scale of the whole library.
pub const SUBUNITS_PER_UNIT: i64 = 60;

/// Screen width (1000 world units).
pub const SCREEN_WIDTH: i64 = 60000;

/// Screen height (700 world units).
pub const SCREEN_HEIGHT: i64 = 42000;

/// x of the right edge of the arena: SCREEN_WIDTH / 2.
pub const RIGHT_WALL: i64 = 30000;

/// x of the left edge of the arena: -RIGHT_WALL.
pub const LEFT_WALL: i64 = -30000;

/// y of the top edge of the arena: SCREEN_HEIGHT / 2.
pub const TOP_WALL: i64 = 21000;

/// y of the bottom edge of the arena: -TOP_WALL.
pub const BOTTOM_WALL: i64 = -21000;

/// RIGHT_WALL - LEFT_WALL.
pub const ARENA_WIDTH: i64 = 60000;

/// TOP_WALL - BOTTOM_WALL.
pub const ARENA_HEIGHT: i64 = 42000;

/// Thickness of every wall (100 world units).
pub const WALL_THICKNESS: i64 = 6000;

/// Inward offset of the top/bottom wall centers from the screen edge (50 units).
pub const VERT_OFFSET: i64 = 3000;

/// Inward offset of the left/right wall centers from the screen edge (25 units).
pub const HORI_OFFSET: i64 = 1500;

/// Side of the square ball sprite (25 world units).
pub const BALL_SIZE: i64 = 1500;

/// Ball speed in subunits per tick (450 world units per second).
pub const BALL_SPEED: i64 = 450;

/// Horizontal component of the initial ball velocity, in subunits per
/// tick: the speed BALL_SPEED along the normalized direction (-0.5, 0.5),
/// 450 / sqrt(2) = 318.198..., rounded to the nearest subunit, toward the
/// player side.
pub const INITIAL_BALL_VELOCITY_X: i64 = -318;

/// Vertical component of the initial ball velocity, upward; see
/// INITIAL_BALL_VELOCITY_X.
pub const INITIAL_BALL_VELOCITY_Y: i64 = 318;

/// Distance from a side wall's inner surface to the paddle center (50 units).
pub const PADDLE_OFFSET: i64 = 3000;

/// Paddle width (15 world units).
pub const PADDLE_WIDTH: i64 = 900;

/// Paddle height (100 world units).
pub const PADDLE_HEIGHT: i64 = 6000;

/// Player paddle speed in subunits per tick (200 world units per second).
pub const PLAYER_VELOCITY: i64 = 200;

/// Opponent paddle speed in subunits per tick (250 world units per second).
pub const OPPONENT_VELOCITY: i64 = 250;

/// A two-dimensional integer vector: a position, a size, or a velocity.
#[derive(Clone, Copy, PartialEq, Eq, Structural, Debug)]
pub struct Vec2i {
    pub x: i64,
    pub y: i64,
}

impl Vec2i {
    pub fn new(x: i64, y: i64) -> (v: Vec2i)
        ensures
            v.x == x,
            v.y == y,
    {
        Vec2i { x, y }
    }
}

/// Position and extent of a sprite: the center of an axis-aligned
/// rectangle and its width/height.
#[derive(Clone, Copy, PartialEq, Eq, Structural, Debug)]
pub struct Transform2 {
    pub translation: Vec2i,
    pub scale: Vec2i,
}

/// The four static walls bounding the arena.
#[derive(Clone, Copy, PartialEq, Eq, Structural, Debug)]
pub enum WallLocation {
    Left,
    Right,
    Bottom,
    Top,
}

/// Center of a wall's rectangle.
pub open spec fn wall_position(loc: WallLocation) -> Vec2i {
    match loc {
        WallLocation::Left => Vec2i { x: (LEFT_WALL + HORI_OFFSET) as i64, y: 0 },
        WallLocation::Right => Vec2i { x: (RIGHT_WALL - HORI_OFFSET) as i64, y: 0 },
        WallLocation::Bottom => Vec2i { x: 0, y: (BOTTOM_WALL + VERT_OFFSET) as i64 },
        WallLocation::Top => Vec2i { x: 0, y: (TOP_WALL - VERT_OFFSET) as i64 },
    }
}

/// Width and height of a wall's rectangle.
pub open spec fn wall_size(loc: WallLocation) -> Vec2i {
    match loc {
        WallLocation::Left | WallLocation::Right => Vec2i {
            x: WALL_THICKNESS,
            y: (ARENA_HEIGHT + WALL_THICKNESS) as i64,
        },
        WallLocation::Bottom | WallLocation::Top => Vec2i {
            x: (ARENA_WIDTH + WALL_THICKNESS) as i64,
            y: WALL_THICKNESS,
        },
    }
}

/// The wall's inner surface: its center moved inward by half the wall
/// thickness. This is the coordinate collisions are tested against.
pub open spec fn wall_inner(loc: WallLocation) -> Vec2i {
    match loc {
        WallLocation::Top => Vec2i {
            x: wall_position(WallLocation::Top).x,
            y: (wall_position(WallLocation::Top).y - WALL_THICKNESS / 2) as i64,
        },
        WallLocation::Bottom => Vec2i {
            x: wall_position(WallLocation::Bottom).x,
            y: (wall_position(WallLocation::Bottom).y + WALL_THICKNESS / 2) as i64,
        },
        WallLocation::Right => Vec2i {
            x: (wall_position(WallLocation::Right).x - WALL_THICKNESS / 2) as i64,
            y: wall_position(WallLocation::Right).y,
        },
        WallLocation::Left => Vec2i {
            x: (wall_position(WallLocation::Left).x + WALL_THICKNESS / 2) as i64,
            y: wall_position(WallLocation::Left).y,
        },
    }
}

impl WallLocation {
    /// Center of this wall's rectangle.
    pub fn position(&self) -> (p: Vec2i)
        ensures
            p == wall_position(*self),
    {
        match self {
            WallLocation::Left => Vec2i { x: LEFT_WALL + HORI_OFFSET, y: 0 },
            WallLocation::Right => Vec2i { x: RIGHT_WALL - HORI_OFFSET, y: 0 },
            WallLocation::Bottom => Vec2i { x: 0, y: BOTTOM_WALL + VERT_OFFSET },
            WallLocation::Top => Vec2i { x: 0, y: TOP_WALL - VERT_OFFSET },
        }
    }

    /// Width and height of this wall's rectangle.
    pub fn size(&self) -> (s: Vec2i)
        ensures
            s == wall_size(*self),
    {
        match self {
            WallLocation::Left | WallLocation::Right => Vec2i {
                x: WALL_THICKNESS,
                y: ARENA_HEIGHT + WALL_THICKNESS,
            },
            WallLocation::Bottom | WallLocation::Top => Vec2i {
                x: ARENA_WIDTH + WALL_THICKNESS,
                y: WALL_THICKNESS,
            },
        }
    }

    /// Position of the inner surface of this wall.
    pub fn inner(&self) -> (p: Vec2i)
        ensures
            p == wall_inner(*self),
    {
        let pos = self.position();
        match self {
            WallLocation::Top => Vec2i { x: pos.x, y: pos.y - WALL_THICKNESS / 2 },
            WallLocation::Bottom => Vec2i { x: pos.x, y: pos.y + WALL_THICKNESS / 2 },
            WallLocation::Right => Vec2i { x: pos.x - WALL_THICKNESS / 2, y: pos.y },
            WallLocation::Left => Vec2i { x: pos.x + WALL_THICKNESS / 2, y: pos.y },
        }
    }
}

/// The two paddles: one human-controlled, one driven by the tracking rule.
#[derive(Clone, Copy, PartialEq, Eq, Structural, Debug)]
pub enum Paddle {
    Player,
    Opponent,
}

/// Resting position of a paddle, derived from the side walls' inner
/// surfaces plus a fixed offset.
pub open spec fn paddle_position(p: Paddle) -> Vec2i {
    match p {
        Paddle::Player => Vec2i {
            x: (wall_inner(WallLocation::Left).x + PADDLE_OFFSET) as i64,
            y: wall_inner(WallLocation::Left).y,
        },
        Paddle::Opponent => Vec2i {
            x: (wall_inner(WallLocation::Right).x - PADDLE_OFFSET) as i64,
            y: wall_inner(WallLocation::Left).y,
        },
    }
}

/// Width and height of a paddle.
pub open spec fn paddle_size(p: Paddle) -> Vec2i {
    Vec2i { x: PADDLE_WIDTH, y: PADDLE_HEIGHT }
}

impl Paddle {
    /// Resting position of this paddle.
    pub fn position(&self) -> (p: Vec2i)
        ensures
            p == paddle_position(*self),
    {
        match self {
            Paddle::Player => {
                let inner = WallLocation::Left.inner();
                Vec2i { x: inner.x + PADDLE_OFFSET, y: inner.y }
            },
            Paddle::Opponent => {
                let right_inner = WallLocation::Right.inner();
                let left_inner = WallLocation::Left.inner();
                Vec2i { x: right_inner.x - PADDLE_OFFSET, y: left_inner.y }
            },
        }
    }

    /// Width and height of this paddle.
    pub fn size(&self) -> (s: Vec2i)
        ensures
            s == paddle_size(*self),
    {
        Vec2i { x: PADDLE_WIDTH, y: PADDLE_HEIGHT }
    }
}

} // verus!
