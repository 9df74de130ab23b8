use vstd::prelude::*;
use crate::direction::{Direction, DirectionRet};
use crate::pieces::BuildablePiece;

verus! {

/// Buying `piece` and putting it at `(x, y)`.
#[derive(Debug, Clone, Copy, PartialEq, Eq, Structural)]
pub struct Building {
    pub x: usize,
    pub y: usize,
    pub piece: BuildablePiece,
}

/// Moving the catapult at `(x, y)` step by step along `moves`; each step costs a potato.
#[derive(Debug, Clone, PartialEq, Eq)]
pub struct KartopultMove {
    pub x: usize,
    pub y: usize,
    pub moves: Vec<DirectionRet>,
}

/// How far a catapult fires, in squares; each square costs a potato.
#[derive(Debug, Clone, Copy, PartialEq, Eq, PartialOrd, Ord, Structural)]
pub enum KartopultPower {
    One,
    Two,
    Three,
}

impl KartopultPower {
    /// The number of squares the shot travels.
    pub open spec fn squares(self) -> int {
        match self {
            KartopultPower::One => 1,
            KartopultPower::Two => 2,
            KartopultPower::Three => 3,
        }
    }

    /// The number of squares the shot travels.
    pub fn value(&self) -> (r: usize)
        ensures
            r == self.squares(),
            1 <= r <= 3,
    {
        match self {
            KartopultPower::One => 1,
            KartopultPower::Two => 2,
            KartopultPower::Three => 3,
        }
    }
}

/// Firing the catapult at `(x, y)` in `direction`, `power` squares far.
#[derive(Debug, Clone, Copy, PartialEq, Eq, Structural)]
pub struct KartopultShot {
    pub x: usize,
    pub y: usize,
    pub direction: Direction,
    pub power: KartopultPower,
}

/// Everything a player does in one turn: first the buildings, then the catapult
/// moves, then the shots, each in the order given.
#[derive(Debug, Clone, PartialEq, Eq)]
pub struct Round {
    pub builds: Vec<Building>,
    pub kartopult_moves: Vec<KartopultMove>,
    pub kartopult_shots: Vec<KartopultShot>,
}

} // verus!
