use vstd::prelude::*;
use crate::pieces::{Piece, Player, PlayerNumber, Square};
use crate::direction::DirectionRet;
use crate::scan::{cells_where, lemma_cells_prefix};
use vstd::array::spec_array_update;

verus! {

/// The whole state of a game: whose turn it is, the seated players (a dead
/// player's seat is empty) and the 20 by 20 board.
#[derive(Debug, Clone, PartialEq, Eq)]
pub struct GameState {
    pub current_player_number: PlayerNumber,
    pub players: [Option<Player>; 4],
    pub board: [[Square; 20]; 20],
}

/// `(x, y)` lies inside the border row of the board: all four of its straight
/// neighbours are on the board.
pub open spec fn inside(x: int, y: int) -> bool {
    1 <= x <= 18 && 1 <= y <= 18
}

/// The position `(x, y)` lies on the board.
pub open spec fn in_bounds(x: int, y: int) -> bool {
    0 <= x < 20 && 0 <= y < 20
}

impl GameState {
    /// The square at `(x, y)`.
    pub open spec fn square(self, x: int, y: int) -> Square {
        self.board@[x]@[y]
    }

    /// The seat of the player whose turn it is.
    pub open spec fn seat(self) -> int {
        self.current_player_number.seat()
    }

    /// The player whose turn it is is still in the game.
    pub open spec fn current_alive(self) -> bool {
        self.players@[self.seat()] is Some
    }

    /// The player whose turn it is.
    pub open spec fn current(self) -> Player {
        self.players@[self.seat()]->Some_0
    }

    /// The player in `seat` is still in the game.
    pub open spec fn alive(self, seat: int) -> bool {
        self.players@[seat] is Some
    }

    /// Some player is still in the game.
    pub open spec fn any_alive(self) -> bool {
        self.alive(0) || self.alive(1) || self.alive(2) || self.alive(3)
    }

    /// The seat whose turn comes next: the first seat after the current one, going
    /// round the table, whose player is still in the game.
    pub open spec fn next_seat(self) -> int {
        let c = self.seat();
        if self.alive((c + 1) % 4) {
            (c + 1) % 4
        } else if self.alive((c + 2) % 4) {
            (c + 2) % 4
        } else if self.alive((c + 3) % 4) {
            (c + 3) % 4
        } else {
            c
        }
    }

    pub fn inbound_usize(&self, x: usize, y: usize) -> (r: bool)
        ensures
            r == in_bounds(x as int, y as int),
    {
        x < self.board.len() && y < self.board[0].len()
    }

    pub fn inbound_isize(&self, x: isize, y: isize) -> (r: bool)
        ensures
            r == in_bounds(x as int, y as int),
    {
        x >= 0 && x < 20 && y >= 0 && y < 20
    }

    /// The seat whose turn comes next, going round the table past the seats of
    /// players who are out of the game.
    pub fn next_player(&self) -> (r: PlayerNumber)
        requires
            self.any_alive(),
        ensures
            r.seat() == self.next_seat(),
            self.alive(r.seat()),
    {
        let mut n: usize = (self.current_player_number.index() + 1) % 4;
        let mut tried: usize = 0;
        while tried < 3 && self.players[n].is_none()
            invariant
                tried <= 3,
                n == (self.seat() + 1 + tried) % 4,
                tried >= 1 ==> !self.alive((self.seat() + 1) % 4),
                tried >= 2 ==> !self.alive((self.seat() + 2) % 4),
                tried >= 3 ==> !self.alive((self.seat() + 3) % 4),
            decreases 3 - tried,
        {
            n = (n + 1) % 4;
            tried = tried + 1;
        }
        PlayerNumber::from_index(n)
    }

    /// The entry for the step from `(x, y)` in `direction`: `None` when the step lands
    /// on the board. The step must land on the board: reading the square of a step that
    /// leaves the board is out of range.
    fn neighbor_square(&self, x: usize, y: usize, direction: DirectionRet) -> (r: Option<
        (Square, usize, usize),
    >)
        requires
            in_bounds(x + direction.vector().0, y + direction.vector().1),
        ensures
            r is None,
    {
        let vector = direction.into_vector();
        let nx = x as isize + vector.0;
        let ny = y as isize + vector.1;
        if self.inbound_isize(nx, ny) {
            return None;
        }
        let (nx, ny) = (nx as usize, ny as usize);
        Some((self.board[nx][ny], nx, ny))
    }

    /// The entries for the four straight steps from `(x, y)`, up, right, down and
    /// left. A step that lands on the board gives `None`; `(x, y)` must lie inside the
    /// border, since a step off the board reads a square out of range.
    pub fn get_neighbors(&self, x: usize, y: usize) -> (r: [Option<(Square, usize, usize)>; 4])
        requires
            inside(x as int, y as int),
        ensures
            forall|i: int| 0 <= i < 4 ==> #[trigger] r@[i] is None,
    {
        [
            self.neighbor_square(x, y, DirectionRet::Up),
            self.neighbor_square(x, y, DirectionRet::Right),
            self.neighbor_square(x, y, DirectionRet::Down),
            self.neighbor_square(x, y, DirectionRet::Left),
        ]
    }

    /// Whether some entry of `get_neighbors(x, y)` holds a piece for which
    /// `is_correct_piece`, given the piece and its owner, answers `true`. Every entry is
    /// `None` (see `get_neighbors`), so the answer is `false` and `is_correct_piece` is
    /// never asked.
    pub fn has_neighbor_of_kind<F>(&self, x: usize, y: usize, is_correct_piece: F) -> (r: bool) where
        F: Fn(&Piece, PlayerNumber) -> bool,

        requires
            inside(x as int, y as int),
        ensures
            !r,
    {
        let neighbor_squares = self.get_neighbors(x, y);
        let mut next_to_correct_piece = false;
        let mut i: usize = 0;
        while i < 4 && !next_to_correct_piece
            invariant
                0 <= i <= 4,
                !next_to_correct_piece,
                forall|j: int| 0 <= j < 4 ==> #[trigger] neighbor_squares@[j] is None,
            decreases 4 - i,
        {
            if let Some(neighbor) = neighbor_squares[i] {
                if let Some((owner, piece)) = neighbor.0.owner_and_piece() {
                    if is_correct_piece(&piece, owner) {
                        next_to_correct_piece = true;
                    }
                }
            }
            i = i + 1;
        }
        next_to_correct_piece
    }

    /// This state with the square at `(x, y)` replaced by `sq`.
    pub open spec fn with_square(self, x: int, y: int, sq: Square) -> GameState {
        GameState {
            board: spec_array_update(self.board, x, spec_array_update(self.board@[x], y, sq)),
            ..self
        }
    }

    /// This state with the player whose turn it is replaced by `player`.
    pub open spec fn with_current(self, player: Player) -> GameState {
        GameState { players: spec_array_update(self.players, self.seat(), Some(player)), ..self }
    }

    /// Reading a square after one square was replaced.
    pub proof fn lemma_with_square_at(self, x: int, y: int, sq: Square, a: int, b: int)
        requires
            in_bounds(x, y),
            in_bounds(a, b),
        ensures
            self.with_square(x, y, sq).square(a, b) == (if a == x && b == y {
                sq
            } else {
                self.square(a, b)
            }),
    {
    }

    /// Replacing the current player leaves the board and the turn as they were, and
    /// puts the new player in the current seat.
    pub proof fn lemma_with_current(self, player: Player)
        requires
            0 <= self.seat() < 4,
        ensures
            self.with_current(player).board == self.board,
            self.with_current(player).current_player_number == self.current_player_number,
            self.with_current(player).current_alive(),
            self.with_current(player).current() == player,
            forall|i: int|
                0 <= i < 4 && i != self.seat() ==> #[trigger] self.with_current(player).players@[i]
                    == self.players@[i],
    {
    }

    /// Puts `sq` at `(x, y)`.
    pub(crate) fn set_square(&mut self, x: usize, y: usize, sq: Square)
        requires
            in_bounds(x as int, y as int),
        ensures
            *final(self) == old(self).with_square(x as int, y as int, sq),
    {
        let ghost old_self = *self;
        let mut row = self.board[x];
        row[y] = sq;
        self.board[x] = row;
        proof {
            let expected = old_self.with_square(x as int, y as int, sq);
            assert(self.board@[x as int] =~= expected.board@[x as int]);
            assert(self.board =~= expected.board);
        }
    }

    /// Cell `(a, b)` holds a capital of `player`.
    pub open spec fn hovedby_pred(self, player: PlayerNumber) -> spec_fn(int, int) -> bool {
        |a: int, b: int| self.square(a, b).holds_capital_of(player)
    }

    /// The cells holding a capital of `player`, in scan order.
    pub open spec fn hovedby_cells(self, player: PlayerNumber) -> Seq<(usize, usize)> {
        cells_where(self.hovedby_pred(player), 20, 0)
    }

    /// The number of capitals of `player` on the board.
    pub open spec fn hovedby_count(self, player: PlayerNumber) -> nat {
        self.hovedby_cells(player).len()
    }

    /// No player has more than four capitals, so that they fit in the table that
    /// `get_hovedbyer` returns.
    pub open spec fn hovedbyer_fit(self) -> bool {
        forall|player: PlayerNumber| #[trigger] self.hovedby_count(player) <= 4
    }

    /// The positions of the capitals of each player, indexed by seat, in scan order,
    /// padded with `None`.
    pub fn get_hovedbyer(&self) -> (r: [[Option<(usize, usize)>; 4]; 4])
        requires
            self.hovedbyer_fit(),
        ensures
            forall|s: int, i: int|
                0 <= s < 4 && 0 <= i < 4 ==> #[trigger] r@[s]@[i] == (if i < self.hovedby_count(
                    PlayerNumber::of_seat(s),
                ) {
                    Some(self.hovedby_cells(PlayerNumber::of_seat(s))[i])
                } else {
                    None
                }),
    {
        let mut hovedby_squares: [[Option<(usize, usize)>; 4]; 4] = [[None; 4]; 4];
        let mut n: [usize; 4] = [0; 4];
        let mut x: usize = 0;
        while x < 20
            invariant
                0 <= x <= 20,
                self.hovedbyer_fit(),
                forall|s: int|
                    0 <= s < 4 ==> #[trigger] n@[s] == cells_where(
                        self.hovedby_pred(PlayerNumber::of_seat(s)),
                        x as int,
                        0,
                    ).len(),
                forall|s: int, i: int|
                    0 <= s < 4 && 0 <= i < 4 ==> #[trigger] hovedby_squares@[s]@[i] == (if i < n@[s] {
                        Some(cells_where(self.hovedby_pred(PlayerNumber::of_seat(s)), x as int, 0)[i])
                    } else {
                        None
                    }),
            decreases 20 - x,
        {
            let mut y: usize = 0;
            while y < 20
                invariant
                    0 <= x < 20,
                    0 <= y <= 20,
                    self.hovedbyer_fit(),
                    forall|s: int|
                        0 <= s < 4 ==> #[trigger] n@[s] == cells_where(
                            self.hovedby_pred(PlayerNumber::of_seat(s)),
                            x as int,
                            y as int,
                        ).len(),
                    forall|s: int, i: int|
                        0 <= s < 4 && 0 <= i < 4 ==> #[trigger] hovedby_squares@[s]@[i] == (if i
                            < n@[s] {
                            Some(
                                cells_where(
                                    self.hovedby_pred(PlayerNumber::of_seat(s)),
                                    x as int,
                                    y as int,
                                )[i],
                            )
                        } else {
                            None
                        }),
                decreases 20 - y,
            {
                proof {
                    assert forall|s: int| 0 <= s < 4 implies cells_where(
                        #[trigger] self.hovedby_pred(PlayerNumber::of_seat(s)),
                        x as int,
                        y as int + 1,
                    ) == (if self.hovedby_pred(PlayerNumber::of_seat(s))(x as int, y as int) {
                        cells_where(self.hovedby_pred(PlayerNumber::of_seat(s)), x as int, y as int).push(
                            (x, y),
                        )
                    } else {
                        cells_where(self.hovedby_pred(PlayerNumber::of_seat(s)), x as int, y as int)
                    }) by {}
                }
                if let Some((player, piece)) = self.board[x][y].owner_and_piece() {
                    if let Piece::Hovedby(_) = piece {
                        let p = player.index();
                        let k = n[p];
                        proof {
                            assert(PlayerNumber::of_seat(p as int) == player);
                            lemma_cells_prefix(self.hovedby_pred(player), x as int, y as int + 1, 20, 0);
                            assert(self.hovedby_count(player) <= 4);
                        }
                        let mut row = hovedby_squares[p];
                        row[k] = Some((x, y));
                        hovedby_squares[p] = row;
                        n[p] = k + 1;
                    }
                }
                y = y + 1;
            }
            proof {
                assert forall|s: int| 0 <= s < 4 implies cells_where(
                    #[trigger] self.hovedby_pred(PlayerNumber::of_seat(s)),
                    x as int + 1,
                    0,
                ) == cells_where(self.hovedby_pred(PlayerNumber::of_seat(s)), x as int, 20) by {}
            }
            x = x + 1;
        }
        hovedby_squares
    }

    pub fn current_player(&self) -> (r: &Player)
        requires
            self.current_alive(),
        ensures
            *r == self.current(),
    {
        let i = self.current_player_number.index();
        match &self.players[i] {
            Some(p) => p,
            None => unreached(),
        }
    }

    pub fn current_player_mut(&mut self) -> (r: &mut Player)
        requires
            old(self).current_alive(),
        ensures
            *r == old(self).current(),
            final(self).current_player_number == old(self).current_player_number,
            final(self).board == old(self).board,
            final(self).players@ == old(self).players@.update(old(self).seat(), Some(*final(r))),
    {
        let i = self.current_player_number.index();
        match &mut self.players[i] {
            Some(p) => p,
            None => unreached(),
        }
    }
}

} // verus!
