//! The two moving entities of the court and the ball's heading.
use vstd::prelude::*;

verus! {

/// The player's paddle, centred on `(x, y)`.
#[derive(Clone, Copy, Debug)]
pub struct Pallet {
    pub x: i64,
    pub y: i64,
    /// Half-extent, used for both axes of the bounding box.
    pub size: u32,
    /// Red, green, blue and alpha channels.
    pub color: [u8; 4],
    /// Hundredths of the court's height travelled per second.
    pub speed: u32,
}

/// The ball, centred on `(x, y)`, steering towards `target`.
#[derive(Clone, Copy, Debug)]
pub struct Ball {
    pub x: i64,
    pub y: i64,
    /// Radius.
    pub size: u32,
    /// Red, green, blue and alpha channels.
    pub color: [u8; 4],
    /// Hundredths of the court's width travelled per second.
    pub speed: u32,
    /// The point `[tx, ty]` the ball heads for.
    pub target: [i64; 2],
}

/// Horizontal heading of the ball.
#[derive(PartialEq, Eq, Structural, Clone, Copy, Debug)]
pub enum Direction {
    Left,
    Right,
}

impl Pallet {
    pub fn right_bound(&self) -> (r: i128)
        ensures
            r == self.x + self.size,
    {
        self.x as i128 + self.size as i128
    }

    pub fn left_bound(&self) -> (r: i128)
        ensures
            r == self.x - self.size,
    {
        self.x as i128 - self.size as i128
    }

    pub fn top_bound(&self) -> (r: i128)
        ensures
            r == self.y - self.size,
    {
        self.y as i128 - self.size as i128
    }

    pub fn bottom_bound(&self) -> (r: i128)
        ensures
            r == self.y + self.size,
    {
        self.y as i128 + self.size as i128
    }
}

impl Ball {
    pub open spec fn target_x(&self) -> int {
        self.target[0] as int
    }

    pub open spec fn target_y(&self) -> int {
        self.target[1] as int
    }

    /// The heading that the position and the target imply.
    pub open spec fn heading(&self) -> Direction {
        if self.x > self.target_x() {
            Direction::Left
        } else {
            Direction::Right
        }
    }

    pub fn right_bound(&self) -> (r: i128)
        ensures
            r == self.x + self.size,
    {
        self.x as i128 + self.size as i128
    }

    pub fn left_bound(&self) -> (r: i128)
        ensures
            r == self.x - self.size,
    {
        self.x as i128 - self.size as i128
    }

    pub fn top_bound(&self) -> (r: i128)
        ensures
            r == self.y - self.size,
    {
        self.y as i128 - self.size as i128
    }

    pub fn bottom_bound(&self) -> (r: i128)
        ensures
            r == self.y + self.size,
    {
        self.y as i128 + self.size as i128
    }

    /// Left exactly when the ball stands right of its target.
    pub fn direction(&self) -> (d: Direction)
        ensures
            d == self.heading(),
            (d == Direction::Left) <==> self.x > self.target_x(),
            (d == Direction::Right) <==> self.x <= self.target_x(),
    {
        if self.x > self.target[0] {
            Direction::Left
        } else {
            Direction::Right
        }
    }
}

} // verus!
