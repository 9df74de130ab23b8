use vstd::prelude::*;
use std::collections::VecDeque;
use crate::pieces::{Piece, PlayerNumber, Square};
use crate::game::{GameState, in_bounds, inside};
use crate::scan::lemma_cells_sound;

verus! {

/// A capital or a town: the pieces that grow potatoes.
pub open spec fn is_town(p: Piece) -> bool {
    p is Hovedby || p is By
}

impl GameState {
    /// The piece at `(x, y)`, when that cell is on the board and holds a piece of the
    /// player whose turn it is.
    pub open spec fn own_piece(self, x: int, y: int) -> Option<Piece> {
        if in_bounds(x, y) {
            match self.square(x, y).content() {
                Some((o, p)) => if o == self.current_player_number {
                    Some(p)
                } else {
                    None
                },
                None => None,
            }
        } else {
            None
        }
    }

    pub open spec fn own_hovedby(self, x: int, y: int) -> bool {
        self.own_piece(x, y) matches Some(p) && p is Hovedby
    }

    /// Every capital of the current player lies inside the border row, so that looking
    /// at its neighbours stays on the board.
    pub open spec fn capitals_inside(self) -> bool {
        forall|x: int, y: int| #[trigger] self.own_hovedby(x, y) ==> inside(x, y)
    }

    /// The number of potatoes the current player harvests: one per capital. The search
    /// from the capitals asks `get_neighbors` for their roads, and that answers `None`
    /// for every neighbour on the board, so nothing beyond the capitals is reached.
    pub open spec fn harvest(self) -> nat {
        self.hovedby_count(self.current_player_number)
    }

    /// Potatoes flow from `from`, a piece of the current player, into `to`, a
    /// neighbouring square.
    pub open spec fn flows_spec(self, from: Piece, to: Square) -> bool {
        match to.content() {
            Some((o, p)) => o == self.current_player_number && ((is_town(from) && p is Vej) || (
            from is Vej && (p is By || p is Vej))),
            None => false,
        }
    }

    /// Whether potatoes flow from `from`, a piece of the current player, into `to`,
    /// a neighbouring square.
    fn flows_to(&self, from: Piece, to: Square) -> (r: bool)
        ensures
            r == self.flows_spec(from, to),
    {
        match to.owner_and_piece() {
            Some((o, p)) => {
                if o == self.current_player_number {
                    match from {
                        Piece::Hovedby(_) | Piece::By(_) => match p {
                            Piece::Vej(_) => true,
                            _ => false,
                        },
                        Piece::Vej(_) => match p {
                            Piece::By(_) | Piece::Vej(_) => true,
                            _ => false,
                        },
                        _ => false,
                    }
                } else {
                    false
                }
            },
            None => false,
        }
    }

    /// Pushes onto `queue` the entries of `neighbors` into which potatoes flow from
    /// `piece` and that are not yet in `visited`. The entries of `get_neighbors` are all
    /// `None`, so nothing is pushed.
    fn push_fed_neighbors(
        &self,
        piece: Piece,
        neighbors: &[Option<(Square, usize, usize)>; 4],
        visited: &[[bool; 20]; 20],
        queue: &mut VecDeque<(usize, usize)>,
    )
        requires
            forall|k: int| 0 <= k < 4 ==> #[trigger] neighbors@[k] is None,
        ensures
            final(queue)@ == old(queue)@,
    {
        let mut j: usize = 0;
        while j < 4
            invariant
                0 <= j <= 4,
                forall|k: int| 0 <= k < 4 ==> #[trigger] neighbors@[k] is None,
                queue@ == old(queue)@,
            decreases 4 - j,
        {
            if let Some((nsq, nx, ny)) = neighbors[j] {
                if nx < 20 && ny < 20 && self.flows_to(piece, nsq) && !visited[nx][ny] {
                    queue.push_front((nx, ny));
                }
            }
            j = j + 1;
        }
    }

    /// The potatoes the current player harvests. The search starts from their capitals,
    /// listed by `get_hovedbyer`, and counts every capital or town it takes from the
    /// queue; see `harvest`.
    pub fn potatos_produced(&self) -> (r: usize)
        requires
            self.hovedbyer_fit(),
            self.capitals_inside(),
        ensures
            r == self.harvest(),
    {
        let mut potatos_produced: usize = 0;
        let hovedbyer = self.get_hovedbyer();
        let hovedby_squares = hovedbyer[self.current_player_number.index()];
        let mut queue: VecDeque<(usize, usize)> = VecDeque::new();
        let mut visited: [[bool; 20]; 20] = [[false; 20]; 20];
        let ghost cur = self.current_player_number;
        let ghost seeds = self.hovedby_cells(cur);
        proof {
            assert(PlayerNumber::of_seat(cur.seat()) == cur);
            assert(self.hovedby_count(cur) <= 4);
        }
        let mut i: usize = 0;
        while i < 4 && hovedby_squares[i].is_some()
            invariant
                0 <= i <= 4,
                seeds == self.hovedby_cells(cur),
                cur == self.current_player_number,
                self.capitals_inside(),
                seeds.len() <= 4,
                forall|k: int|
                    0 <= k < 4 ==> #[trigger] hovedby_squares@[k] == (if k < seeds.len() {
                        Some(seeds[k])
                    } else {
                        None
                    }),
                i <= seeds.len(),
                queue@.len() == i,
                forall|k: int|
                    0 <= k < queue@.len() ==> #[trigger] self.own_hovedby(
                        queue@[k].0 as int,
                        queue@[k].1 as int,
                    ),
            decreases 4 - i,
        {
            let h = hovedby_squares[i].unwrap();
            proof {
                lemma_cells_sound(self.hovedby_pred(cur), 20, 0, i as int);
            }
            let ghost q0 = queue@;
            queue.push_front(h);
            proof {
                assert forall|k: int| 0 <= k < queue@.len() implies #[trigger] self.own_hovedby(
                    queue@[k].0 as int,
                    queue@[k].1 as int,
                ) by {
                    if k > 0 {
                        assert(queue@[k] == q0[k - 1]);
                    }
                }
            }
            i = i + 1;
        }
        while queue.len() > 0
            invariant
                cur == self.current_player_number,
                self.capitals_inside(),
                potatos_produced + queue@.len() == seeds.len(),
                seeds.len() == self.harvest(),
                seeds.len() <= 4,
                forall|k: int|
                    0 <= k < queue@.len() ==> #[trigger] self.own_hovedby(
                        queue@[k].0 as int,
                        queue@[k].1 as int,
                    ),
            decreases queue@.len(),
        {
            let ghost q0 = queue@;
            let (px, py) = queue.pop_back().unwrap();
            proof {
                assert(self.own_hovedby(q0[q0.len() - 1].0 as int, q0[q0.len() - 1].1 as int));
                assert forall|k: int| 0 <= k < queue@.len() implies #[trigger] self.own_hovedby(
                    queue@[k].0 as int,
                    queue@[k].1 as int,
                ) by {
                    assert(queue@[k] == q0[k]);
                }
            }
            let piece = match self.board[px][py].owner_and_piece() {
                Some((_, piece)) => piece,
                None => unreached(),
            };
            match piece {
                Piece::Hovedby(_) | Piece::By(_) => {
                    let neighbors = self.get_neighbors(px, py);
                    self.push_fed_neighbors(piece, &neighbors, &visited, &mut queue);
                    potatos_produced = potatos_produced + 1;
                },
                Piece::Vej(_) => {
                    let neighbors = self.get_neighbors(px, py);
                    self.push_fed_neighbors(piece, &neighbors, &visited, &mut queue);
                },
                _ => unreached(),
            }
            let mut row = visited[px];
            row[py] = true;
            visited[px] = row;
        }
        potatos_produced
    }
}

} // verus!
