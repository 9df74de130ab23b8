use vstd::prelude::*;

verus! {

/// One of the four seats at the table.
#[derive(Debug, Clone, Copy, PartialEq, Eq, PartialOrd, Ord, Structural)]
pub enum PlayerNumber {
    PlayerOne,
    PlayerTwo,
    PlayerThree,
    PlayerFour,
}

impl PlayerNumber {
    /// The seat's place in the player array, from 0 to 3.
    pub open spec fn seat(self) -> int {
        match self {
            PlayerNumber::PlayerOne => 0,
            PlayerNumber::PlayerTwo => 1,
            PlayerNumber::PlayerThree => 2,
            PlayerNumber::PlayerFour => 3,
        }
    }

    /// The seat with the given place in the player array.
    pub open spec fn of_seat(i: int) -> PlayerNumber {
        if i == 0 {
            PlayerNumber::PlayerOne
        } else if i == 1 {
            PlayerNumber::PlayerTwo
        } else if i == 2 {
            PlayerNumber::PlayerThree
        } else {
            PlayerNumber::PlayerFour
        }
    }

    /// The seat's place in the player array.
    pub fn index(&self) -> (r: usize)
        ensures
            r == self.seat(),
            r < 4,
    {
        match self {
            PlayerNumber::PlayerOne => 0,
            PlayerNumber::PlayerTwo => 1,
            PlayerNumber::PlayerThree => 2,
            PlayerNumber::PlayerFour => 3,
        }
    }

    /// The seat with place `value` in the player array; there are only four.
    pub fn from_index(value: usize) -> (r: PlayerNumber)
        requires
            value < 4,
        ensures
            r.seat() == value,
            r == PlayerNumber::of_seat(value as int),
    {
        match value {
            0 => PlayerNumber::PlayerOne,
            1 => PlayerNumber::PlayerTwo,
            2 => PlayerNumber::PlayerThree,
            _ => PlayerNumber::PlayerFour,
        }
    }
}

/// A colour a player would like to be shown in.
#[derive(Debug, Clone, Copy, PartialEq, Eq, Structural)]
pub struct Color {
    pub red: u8,
    pub green: u8,
    pub blue: u8,
}

/// The two kinds of potato catapult.
#[derive(Debug, Clone, Copy, PartialEq, Eq, Structural)]
pub enum Kartopult {
    /// Fires along the straight directions.
    Ret,
    /// Fires along the diagonals.
    Diagonal,
}

/// What can stand on a square. A capital (`Hovedby`), town (`By`) or road (`Vej`)
/// may carry a catapult.
#[derive(Debug, Clone, Copy, PartialEq, Eq)]
pub enum Piece {
    Hovedby(Option<Kartopult>),
    OedelagtHovedby,
    By(Option<Kartopult>),
    Vej(Option<Kartopult>),
    Mur,
}

impl Piece {
    /// A capital, town or road without a catapult: a catapult may stand here.
    pub open spec fn can_carry_kartopult(self) -> bool {
        match self {
            Piece::Hovedby(None) | Piece::By(None) | Piece::Vej(None) => true,
            _ => false,
        }
    }

    /// The catapult that stands on this piece, if any.
    pub open spec fn kartopult(self) -> Option<Kartopult> {
        match self {
            Piece::Hovedby(k) | Piece::By(k) | Piece::Vej(k) => k,
            _ => None,
        }
    }

    /// The piece with catapult `k` put on it, where one may stand.
    pub open spec fn with_kartopult(self, k: Option<Kartopult>) -> Piece {
        match self {
            Piece::Hovedby(_) => Piece::Hovedby(k),
            Piece::By(_) => Piece::By(k),
            Piece::Vej(_) => Piece::Vej(k),
            _ => self,
        }
    }

    /// This piece, owned by `owner`, when a catapult of `player` may be placed on it.
    pub open spec fn friendly_for(&self, owner: PlayerNumber, player: PlayerNumber) -> Option<Piece> {
        Square::of(owner, *self).friendly_piece(player)
    }

    /// This piece, owned by `owner`, when a catapult of `player` stands on it.
    pub open spec fn armed_for(&self, owner: PlayerNumber, player: PlayerNumber) -> Option<Piece> {
        Square::of(owner, *self).armed_piece(player)
    }

    pub fn place_kartopult(&self, kartopult: Kartopult) -> (r: Option<Piece>)
        ensures
            r == (if self.can_carry_kartopult() {
                Some(self.with_kartopult(Some(kartopult)))
            } else {
                None
            }),
    {
        match self {
            Piece::Hovedby(None) => Some(Piece::Hovedby(Some(kartopult))),
            Piece::By(None) => Some(Piece::By(Some(kartopult))),
            Piece::Vej(None) => Some(Piece::Vej(Some(kartopult))),
            _ => None,
        }
    }

    pub fn remove_kartopult(&self) -> (r: Option<Piece>)
        ensures
            r == (if self.kartopult() is Some {
                Some(self.with_kartopult(None))
            } else {
                None
            }),
    {
        match self {
            Piece::Hovedby(Some(_)) => Some(Piece::Hovedby(None)),
            Piece::By(Some(_)) => Some(Piece::By(None)),
            Piece::Vej(Some(_)) => Some(Piece::Vej(None)),
            _ => None,
        }
    }
}

/// A square of the board: empty, or holding a piece of one player.
#[derive(Debug, Clone, Copy, PartialEq, Eq)]
pub enum Square {
    Empty,
    PlayerOne(Piece),
    PlayerTwo(Piece),
    PlayerThree(Piece),
    PlayerFour(Piece),
}

impl Square {
    /// The owner and the piece of an occupied square.
    pub open spec fn content(self) -> Option<(PlayerNumber, Piece)> {
        match self {
            Square::Empty => None,
            Square::PlayerOne(p) => Some((PlayerNumber::PlayerOne, p)),
            Square::PlayerTwo(p) => Some((PlayerNumber::PlayerTwo, p)),
            Square::PlayerThree(p) => Some((PlayerNumber::PlayerThree, p)),
            Square::PlayerFour(p) => Some((PlayerNumber::PlayerFour, p)),
        }
    }

    /// The square that holds `piece` of `player`.
    pub open spec fn of(player: PlayerNumber, piece: Piece) -> Square {
        match player {
            PlayerNumber::PlayerOne => Square::PlayerOne(piece),
            PlayerNumber::PlayerTwo => Square::PlayerTwo(piece),
            PlayerNumber::PlayerThree => Square::PlayerThree(piece),
            PlayerNumber::PlayerFour => Square::PlayerFour(piece),
        }
    }

    /// The square holds a capital of `player`.
    pub open spec fn holds_capital_of(self, player: PlayerNumber) -> bool {
        match self.content() {
            Some((o, p)) => o == player && p is Hovedby,
            None => false,
        }
    }

    /// The piece of `player` here, when it is one on which a catapult may be placed.
    pub open spec fn friendly_piece(self, player: PlayerNumber) -> Option<Piece> {
        match self.content() {
            Some((o, p)) => if o == player && p.can_carry_kartopult() {
                Some(p)
            } else {
                None
            },
            None => None,
        }
    }

    /// The piece of `player` here, when a catapult stands on it.
    pub open spec fn armed_piece(self, player: PlayerNumber) -> Option<Piece> {
        match self.content() {
            Some((o, p)) => if o == player && p.kartopult() is Some {
                Some(p)
            } else {
                None
            },
            None => None,
        }
    }

    pub fn from_player_number(player: PlayerNumber, piece: Piece) -> (r: Self)
        ensures
            r == Square::of(player, piece),
            r.content() == Some((player, piece)),
    {
        match player {
            PlayerNumber::PlayerOne => Square::PlayerOne(piece),
            PlayerNumber::PlayerTwo => Square::PlayerTwo(piece),
            PlayerNumber::PlayerThree => Square::PlayerThree(piece),
            PlayerNumber::PlayerFour => Square::PlayerFour(piece),
        }
    }

    /// The owner and the piece, on an occupied square.
    pub(crate) fn owner_and_piece(&self) -> (r: Option<(PlayerNumber, Piece)>)
        ensures
            r == self.content(),
    {
        match self {
            Square::Empty => None,
            Square::PlayerOne(piece) => Some((PlayerNumber::PlayerOne, *piece)),
            Square::PlayerTwo(piece) => Some((PlayerNumber::PlayerTwo, *piece)),
            Square::PlayerThree(piece) => Some((PlayerNumber::PlayerThree, *piece)),
            Square::PlayerFour(piece) => Some((PlayerNumber::PlayerFour, *piece)),
        }
    }

    /// Applies `function` to the piece and its owner, on an occupied square.
    pub fn map_piece<F, R>(&self, function: F) -> (r: Option<R>) where F: Fn(&Piece, PlayerNumber) -> R
        requires
            self.content() matches Some((o, p)) ==> call_requires(function, (&p, o)),
        ensures
            r is Some <==> self.content() is Some,
            self.content() matches Some((o, p)) ==> call_ensures(function, (&p, o), r->0),
    {
        match self {
            Square::Empty => None,
            Square::PlayerOne(piece) => Some(function(piece, PlayerNumber::PlayerOne)),
            Square::PlayerTwo(piece) => Some(function(piece, PlayerNumber::PlayerTwo)),
            Square::PlayerThree(piece) => Some(function(piece, PlayerNumber::PlayerThree)),
            Square::PlayerFour(piece) => Some(function(piece, PlayerNumber::PlayerFour)),
        }
    }

    /// The piece of `kartopult_player` here, when it is one on which a catapult may be placed.
    pub fn is_kartopult_friendly(&self, kartopult_player: PlayerNumber) -> (r: Option<Piece>)
        ensures
            r == self.friendly_piece(kartopult_player),
    {
        let friendly = |piece: &Piece, square_player: PlayerNumber| -> (r: Option<Piece>)
                ensures
                    r == piece.friendly_for(square_player, kartopult_player),
                {
                    if square_player == kartopult_player {
                        match piece {
                            Piece::By(None) | Piece::Hovedby(None) | Piece::Vej(None) => Some(
                                *piece,
                            ),
                            _ => None,
                        }
                    } else {
                        None
                    }
                };
        let r = self.map_piece(friendly);
        match r {
            Some(inner) => inner,
            None => None,
        }
    }

    /// The piece of `kartopult_player` here, when a catapult stands on it.
    pub fn has_kartopult(&self, kartopult_player: PlayerNumber) -> (r: Option<Piece>)
        ensures
            r == self.armed_piece(kartopult_player),
    {
        let armed = |piece: &Piece, square_player: PlayerNumber| -> (r: Option<Piece>)
                ensures
                    r == piece.armed_for(square_player, kartopult_player),
                {
                    if square_player == kartopult_player {
                        match piece {
                            Piece::By(Some(_)) | Piece::Hovedby(Some(_)) | Piece::Vej(Some(_)) => {
                                Some(*piece)
                            },
                            _ => None,
                        }
                    } else {
                        None
                    }
                };
        let r = self.map_piece(armed);
        match r {
            Some(inner) => inner,
            None => None,
        }
    }
}

/// How many pieces of each kind a player still has in hand.
#[derive(Debug, Clone, Copy, PartialEq, Eq, Structural)]
pub struct PieceCounts {
    pub by: usize,
    pub kartopult_ret: usize,
    pub kartopult_diagonal: usize,
    pub vej: usize,
    pub mur: usize,
}

/// A piece that can be bought and put on the board.
#[derive(Debug, Clone, Copy, PartialEq, Eq, Structural)]
pub enum BuildablePiece {
    By,
    Vej,
    Mur,
    Kartopult(Kartopult),
}

impl PieceCounts {
    /// How many of `building` are left in hand.
    pub open spec fn count_of(self, building: BuildablePiece) -> usize {
        match building {
            BuildablePiece::By => self.by,
            BuildablePiece::Vej => self.vej,
            BuildablePiece::Mur => self.mur,
            BuildablePiece::Kartopult(Kartopult::Ret) => self.kartopult_ret,
            BuildablePiece::Kartopult(Kartopult::Diagonal) => self.kartopult_diagonal,
        }
    }

    /// The counts with one `building` taken from the hand.
    pub open spec fn after_taking(self, building: BuildablePiece) -> PieceCounts {
        match building {
            BuildablePiece::By => PieceCounts { by: (self.by - 1) as usize, ..self },
            BuildablePiece::Vej => PieceCounts { vej: (self.vej - 1) as usize, ..self },
            BuildablePiece::Mur => PieceCounts { mur: (self.mur - 1) as usize, ..self },
            BuildablePiece::Kartopult(Kartopult::Ret) => PieceCounts {
                kartopult_ret: (self.kartopult_ret - 1) as usize,
                ..self
            },
            BuildablePiece::Kartopult(Kartopult::Diagonal) => PieceCounts {
                kartopult_diagonal: (self.kartopult_diagonal - 1) as usize,
                ..self
            },
        }
    }

    pub fn can_build(&self, building: BuildablePiece) -> (r: bool)
        ensures
            r == (self.count_of(building) >= 1),
    {
        (match building {
            BuildablePiece::By => self.by,
            BuildablePiece::Vej => self.vej,
            BuildablePiece::Mur => self.mur,
            BuildablePiece::Kartopult(Kartopult::Ret) => self.kartopult_ret,
            BuildablePiece::Kartopult(Kartopult::Diagonal) => self.kartopult_diagonal,
        }) >= 1
    }

    /// Takes one `building` from the hand; the caller has checked that there is one.
    pub fn build_piece_unchecked(&mut self, building: BuildablePiece)
        requires
            old(self).count_of(building) >= 1,
        ensures
            *final(self) == old(self).after_taking(building),
    {
        match building {
            BuildablePiece::By => self.by = self.by - 1,
            BuildablePiece::Vej => self.vej = self.vej - 1,
            BuildablePiece::Mur => self.mur = self.mur - 1,
            BuildablePiece::Kartopult(Kartopult::Ret) => self.kartopult_ret = self.kartopult_ret
                - 1,
            BuildablePiece::Kartopult(Kartopult::Diagonal) => self.kartopult_diagonal =
            self.kartopult_diagonal - 1,
        }
    }
}

impl Default for PieceCounts {
    /// The hand each player starts with.
    fn default() -> (r: Self)
        ensures
            r == (PieceCounts { by: 5, kartopult_ret: 5, kartopult_diagonal: 5, vej: 40, mur: 10 }),
    {
        Self { by: 5, kartopult_ret: 5, kartopult_diagonal: 5, vej: 40, mur: 10 }
    }
}

impl BuildablePiece {
    /// The price in potatoes.
    pub open spec fn price(self) -> nat {
        match self {
            BuildablePiece::By => 4,
            BuildablePiece::Vej => 1,
            BuildablePiece::Mur => 1,
            BuildablePiece::Kartopult(_) => 3,
        }
    }

    /// The piece that building this puts on an empty square; a catapult is put on a
    /// piece instead, so it has none.
    pub open spec fn placed_piece(self) -> Piece {
        match self {
            BuildablePiece::By => Piece::By(None),
            BuildablePiece::Vej => Piece::Vej(None),
            _ => Piece::Mur,
        }
    }

    pub fn cost(&self) -> (r: usize)
        ensures
            r == self.price(),
    {
        match self {
            BuildablePiece::By => 4,
            BuildablePiece::Vej => 1,
            BuildablePiece::Mur => 1,
            BuildablePiece::Kartopult(_) => 3,
        }
    }

    /// The piece that building this puts on an empty square.
    pub fn into_piece(self) -> (r: Piece)
        requires
            !(self is Kartopult),
        ensures
            r == self.placed_piece(),
    {
        match self {
            BuildablePiece::By => Piece::By(None),
            BuildablePiece::Vej => Piece::Vej(None),
            _ => Piece::Mur,
        }
    }
}

/// A seated player: colour, potatoes and pieces in hand.
#[derive(Debug, Clone, Copy, PartialEq, Eq, Structural)]
pub struct Player {
    pub preferred_color: Color,
    pub potato_count: usize,
    pub piece_counts: PieceCounts,
}

} // verus!
