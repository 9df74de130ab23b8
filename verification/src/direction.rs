use vstd::prelude::*;

verus! {

/// The four straight directions on the board.
#[derive(Debug, Clone, Copy, PartialEq, Eq, Structural)]
pub enum DirectionRet {
    Up,
    Right,
    Down,
    Left,
}

/// The four diagonal directions on the board.
#[derive(Debug, Clone, Copy, PartialEq, Eq, Structural)]
pub enum DirectionDiagonal {
    UpLeft,
    UpRight,
    DownRight,
    DownLeft,
}

/// A direction in which a catapult can fire.
#[derive(Debug, Clone, Copy, PartialEq, Eq, Structural)]
pub enum Direction {
    Ret(DirectionRet),
    Diagonal(DirectionDiagonal),
}

/// All straight directions, in the order in which neighbours are listed.
pub const ALL_DIRECTION_RET: [DirectionRet; 4] = [
    DirectionRet::Up,
    DirectionRet::Right,
    DirectionRet::Down,
    DirectionRet::Left,
];

/// All diagonal directions.
pub const ALL_DIRECTION_DIAGONAL: [DirectionDiagonal; 4] = [
    DirectionDiagonal::UpLeft,
    DirectionDiagonal::UpRight,
    DirectionDiagonal::DownRight,
    DirectionDiagonal::DownLeft,
];

impl DirectionRet {
    /// The step `(dx, dy)` that this direction stands for.
    pub open spec fn vector(self) -> (int, int) {
        match self {
            DirectionRet::Up => (0, 1),
            DirectionRet::Right => (1, 0),
            DirectionRet::Down => (0, -1),
            DirectionRet::Left => (-1, 0),
        }
    }

    pub fn into_vector(&self) -> (r: (isize, isize))
        ensures
            r.0 == self.vector().0,
            r.1 == self.vector().1,
    {
        match self {
            DirectionRet::Up => (0, 1),
            DirectionRet::Right => (1, 0),
            DirectionRet::Down => (0, -1),
            DirectionRet::Left => (-1, 0),
        }
    }
}

impl DirectionDiagonal {
    /// The step `(dx, dy)` that this direction stands for. `DownRight` gives `(-1, 1)`,
    /// the same step as `UpLeft`.
    pub open spec fn vector(self) -> (int, int) {
        match self {
            DirectionDiagonal::UpLeft => (-1, 1),
            DirectionDiagonal::UpRight => (1, 1),
            DirectionDiagonal::DownRight => (-1, 1),
            DirectionDiagonal::DownLeft => (-1, -1),
        }
    }

    /// The step `(dx, dy)` that this direction stands for; `DownRight` gives the same
    /// step as `UpLeft`, `(-1, 1)`.
    pub fn into_vector(&self) -> (r: (isize, isize))
        ensures
            r.0 == self.vector().0,
            r.1 == self.vector().1,
    {
        match self {
            DirectionDiagonal::UpLeft => (-1, 1),
            DirectionDiagonal::UpRight => (1, 1),
            DirectionDiagonal::DownRight => (-1, 1),
            DirectionDiagonal::DownLeft => (-1, -1),
        }
    }
}

impl Direction {
    /// The step `(dx, dy)` that this direction stands for.
    pub open spec fn vector(self) -> (int, int) {
        match self {
            Direction::Ret(d) => d.vector(),
            Direction::Diagonal(d) => d.vector(),
        }
    }

    pub fn into_vector(&self) -> (r: (isize, isize))
        ensures
            r.0 == self.vector().0,
            r.1 == self.vector().1,
    {
        match self {
            Direction::Ret(direction) => direction.into_vector(),
            Direction::Diagonal(direction) => direction.into_vector(),
        }
    }
}

} // verus!
