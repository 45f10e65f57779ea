//! The play field: its dimensions, the two walls and the two paddles.
use vstd::prelude::*;
use crate::geometry::{Aabb, IVec2, box_around};

verus! {

/// Half the width of the play field (640 world units).
pub const FIELD_HALF_WIDTH: i64 = 38400;
/// Half the height of the play field (360 world units).
pub const FIELD_HALF_HEIGHT: i64 = 21600;
/// Half the thickness of the top and bottom walls.
pub const WALL_HALF_THICKNESS: i64 = 300;
/// Thickness of the top and bottom walls.
pub const WALL_THICKNESS: i64 = 2 * WALL_HALF_THICKNESS;
/// Half the width of a paddle.
pub const PADDLE_HALF_WIDTH: i64 = 600;
/// Half the height of a paddle.
pub const PADDLE_HALF_HEIGHT: i64 = 3600;
/// Gap kept between a paddle and the top or bottom of the field.
pub const PADDLE_PADDING: i64 = 1200;
/// Distance a paddle moves in one tick while its key is held (400 world
/// units per second).
pub const PADDLE_SPEED: i64 = 400;
/// Largest distance of a paddle's centre from the horizontal mid-line.
pub const PADDLE_BOUND: i64 = FIELD_HALF_HEIGHT - PADDLE_HALF_HEIGHT - PADDLE_PADDING;
/// Horizontal position of the left paddle's centre.
pub const LEFT_PADDLE_X: i64 = -FIELD_HALF_WIDTH + 4 * PADDLE_HALF_WIDTH;
/// Horizontal position of the right paddle's centre.
pub const RIGHT_PADDLE_X: i64 = FIELD_HALF_WIDTH - 4 * PADDLE_HALF_WIDTH;

/// The direction a paddle is asked to move: `1` toward the top while its up
/// key is held, else `-1` toward the bottom while its down key is held, else
/// `0`.
pub open spec fn direction_of(up: bool, down: bool) -> int {
    if up {
        1
    } else if down {
        -1
    } else {
        0
    }
}

/// Resolves the state of a paddle's two keys into a direction.
pub fn input_direction(up: bool, down: bool) -> (r: i64)
    ensures
        r == direction_of(up, down),
{
    if up {
        1
    } else if down {
        -1
    } else {
        0
    }
}

/// `v` limited to `[lo, hi]`.
pub open spec fn clamped(v: int, lo: int, hi: int) -> int {
    if v < lo {
        lo
    } else if v > hi {
        hi
    } else {
        v
    }
}

/// Where a paddle centred at height `y` stands after one tick of moving in
/// `direction`, kept within `[-PADDLE_BOUND, PADDLE_BOUND]`.
pub open spec fn moved_paddle_y(y: int, direction: int) -> int {
    clamped(y + direction * PADDLE_SPEED, -PADDLE_BOUND as int, PADDLE_BOUND as int)
}

/// Moves a paddle's height by one tick in `direction` and clamps it to the
/// field, whatever the height and direction given.
pub fn move_paddle_y(y: i64, direction: i64) -> (r: i64)
    ensures
        r == moved_paddle_y(y as int, direction as int),
        -PADDLE_BOUND <= r <= PADDLE_BOUND,
{
    assert(i64::MIN * PADDLE_SPEED <= direction * PADDLE_SPEED <= i64::MAX * PADDLE_SPEED)
        by (nonlinear_arith)
        requires
            i64::MIN <= direction <= i64::MAX,
            PADDLE_SPEED > 0,
    ;
    let step: i128 = direction as i128 * PADDLE_SPEED as i128;
    let target: i128 = y as i128 + step;
    if target < -PADDLE_BOUND as i128 {
        -PADDLE_BOUND
    } else if target > PADDLE_BOUND as i128 {
        PADDLE_BOUND
    } else {
        target as i64
    }
}

/// The box of a paddle centred at `(x, y)`.
pub open spec fn paddle_box(x: i64, y: i64) -> Aabb {
    box_around(IVec2 { x, y }, IVec2 { x: PADDLE_HALF_WIDTH, y: PADDLE_HALF_HEIGHT })
}

/// The paddle on the left edge, moved with its own pair of keys.
#[derive(Clone, Copy, Debug, PartialEq, Eq, Structural)]
pub struct LeftPaddle {
    pub y: i64,
}

/// The paddle on the right edge, moved with its own pair of keys.
#[derive(Clone, Copy, Debug, PartialEq, Eq, Structural)]
pub struct RightPaddle {
    pub y: i64,
}

impl LeftPaddle {
    pub open spec fn bounds(self) -> Aabb {
        paddle_box(LEFT_PADDLE_X, self.y)
    }

    /// The paddle's box.
    pub fn aabb(&self) -> (r: Aabb)
        requires
            -PADDLE_BOUND <= self.y <= PADDLE_BOUND,
        ensures
            r == self.bounds(),
    {
        Aabb::around(
            IVec2 { x: LEFT_PADDLE_X, y: self.y },
            IVec2 { x: PADDLE_HALF_WIDTH, y: PADDLE_HALF_HEIGHT },
        )
    }
}

impl RightPaddle {
    pub open spec fn bounds(self) -> Aabb {
        paddle_box(RIGHT_PADDLE_X, self.y)
    }

    /// The paddle's box.
    pub fn aabb(&self) -> (r: Aabb)
        requires
            -PADDLE_BOUND <= self.y <= PADDLE_BOUND,
        ensures
            r == self.bounds(),
    {
        Aabb::around(
            IVec2 { x: RIGHT_PADDLE_X, y: self.y },
            IVec2 { x: PADDLE_HALF_WIDTH, y: PADDLE_HALF_HEIGHT },
        )
    }
}

/// One of the two walls that close the field at the top and the bottom.
/// The left and right edges are open: the ball leaving there scores.
#[derive(Clone, Copy, Debug, PartialEq, Eq, Structural)]
pub enum WallLocation {
    Bottom,
    Top,
}

impl WallLocation {
    pub open spec fn center(self) -> IVec2 {
        match self {
            WallLocation::Bottom => IVec2 { x: 0, y: -FIELD_HALF_HEIGHT as i64 },
            WallLocation::Top => IVec2 { x: 0, y: FIELD_HALF_HEIGHT },
        }
    }

    /// The wall spans the field's width plus its own thickness.
    pub open spec fn extent(self) -> IVec2 {
        IVec2 { x: (2 * FIELD_HALF_WIDTH + WALL_THICKNESS) as i64, y: WALL_THICKNESS }
    }

    pub open spec fn bounds(self) -> Aabb {
        box_around(self.center(), IVec2 { x: (self.extent().x / 2) as i64, y: (self.extent().y / 2) as i64 })
    }

    /// The centre of the wall.
    pub fn position(&self) -> (r: IVec2)
        ensures
            r == self.center(),
    {
        match self {
            WallLocation::Bottom => IVec2 { x: 0, y: -FIELD_HALF_HEIGHT },
            WallLocation::Top => IVec2 { x: 0, y: FIELD_HALF_HEIGHT },
        }
    }

    /// The width and height of the wall.
    pub fn size(&self) -> (r: IVec2)
        ensures
            r == self.extent(),
    {
        IVec2 { x: 2 * FIELD_HALF_WIDTH + WALL_THICKNESS, y: WALL_THICKNESS }
    }

    /// The wall's box.
    pub fn aabb(&self) -> (r: Aabb)
        ensures
            r == self.bounds(),
    {
        let size = self.size();
        Aabb::around(self.position(), IVec2 { x: size.x / 2, y: size.y / 2 })
    }
}

} // verus!
