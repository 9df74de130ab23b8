use vstd::prelude::*;
use crate::actions::{Building, KartopultMove, KartopultShot};
use crate::direction::{Direction, DirectionRet};
use crate::game::{GameState, in_bounds};
use crate::pieces::{BuildablePiece, Kartopult, Piece, Player, PlayerNumber, Square};

verus! {

/// Roads: what a new town must adjoin.
pub open spec fn town_site(p: Piece) -> bool {
    p is Vej
}

/// Roads, towns and capitals: what a new road must adjoin.
pub open spec fn road_site(p: Piece) -> bool {
    p is Vej || p is By || p is Hovedby
}

/// Roads, towns, capitals and walls: what a new wall must adjoin.
pub open spec fn wall_site(p: Piece) -> bool {
    p is Vej || p is By || p is Hovedby || p is Mur
}

/// Where a catapult stands after the first `k` steps of `moves` from `(x, y)`.
pub open spec fn path_pos(x: int, y: int, moves: Seq<DirectionRet>, k: int) -> (int, int)
    decreases k,
{
    if k <= 0 {
        (x, y)
    } else {
        let prev = path_pos(x, y, moves, k - 1);
        (prev.0 + moves[k - 1].vector().0, prev.1 + moves[k - 1].vector().1)
    }
}

/// The square a shot passes `p` squares out from its catapult.
pub open spec fn shot_square(s: KartopultShot, p: int) -> (int, int) {
    (s.x + p * s.direction.vector().0, s.y + p * s.direction.vector().1)
}

/// A catapult of kind `k` fires in `direction`: straight ones straight, diagonal ones
/// diagonally.
pub open spec fn fits(k: Kartopult, direction: Direction) -> bool {
    (direction is Ret && k == Kartopult::Ret) || (direction is Diagonal && k == Kartopult::Diagonal)
}

impl GameState {
    /// The player whose turn it is can pay for and has in hand a `piece`.
    pub open spec fn can_afford(self, piece: BuildablePiece) -> bool {
        &&& self.current().potato_count >= piece.price()
        &&& self.current().piece_counts.count_of(piece) >= 1
    }

    /// The current player after paying `cost` potatoes.
    pub open spec fn paid(self, cost: int) -> Player {
        Player { potato_count: (self.current().potato_count - cost) as usize, ..self.current() }
    }

    /// The inputs on which `build` returns: when the builder can pay for and has in hand
    /// the piece, its position is on the board (a position off the board is read out of
    /// range).
    pub open spec fn build_safe(self, b: Building) -> bool {
        self.can_afford(b.piece) ==> in_bounds(b.x as int, b.y as int)
    }

    /// Builds `building` for the player whose turn it is. The checks come in this order:
    /// the price, the piece in hand, and then the position, which refuses every square
    /// on the board. So a building is never put up: `Err` is returned and the state is
    /// left as it was.
    pub fn build(&mut self, building: Building) -> (r: Result<(), ()>)
        requires
            old(self).current_alive(),
            old(self).build_safe(building),
        ensures
            r is Err,
            *final(self) == *old(self),
    {
        if self.current_player().potato_count < building.piece.cost() {
            return Err(());
        }
        if !self.current_player().piece_counts.can_build(building.piece) {
            return Err(());
        }
        if self.inbound_usize(building.x, building.y) {
            return Err(());
        }
        let cur = self.current_player_number;
        let x = building.x;
        let y = building.y;
        let new_piece: Piece = match building.piece {
            BuildablePiece::Kartopult(kartopult) => {
                match self.board[x][y].owner_and_piece() {
                    Some((owner, Piece::By(None))) => {
                        if owner == cur {
                            Piece::By(Some(kartopult))
                        } else {
                            return Err(());
                        }
                    },
                    Some((owner, Piece::Hovedby(None))) => {
                        if owner == cur {
                            Piece::Hovedby(Some(kartopult))
                        } else {
                            return Err(());
                        }
                    },
                    _ => {
                        return Err(());
                    },
                }
            },
            BuildablePiece::By => {
                let is_site = |piece: &Piece, player: PlayerNumber| -> (r: bool)
                    ensures
                        r == (player == cur && town_site(*piece)),
                    { player == cur && matches!(piece, Piece::Vej(_)) };
                let next_to_correct_piece = self.has_neighbor_of_kind(x, y, is_site);
                if !next_to_correct_piece || !matches!(self.board[x][y], Square::Empty) {
                    return Err(());
                }
                building.piece.into_piece()
            },
            BuildablePiece::Vej => {
                let is_site = |piece: &Piece, player: PlayerNumber| -> (r: bool)
                    ensures
                        r == (player == cur && road_site(*piece)),
                    {
                        player == cur && matches!(
                            piece,
                            Piece::Vej(_) | Piece::By(_) | Piece::Hovedby(_)
                        )
                    };
                let next_to_correct_piece = self.has_neighbor_of_kind(x, y, is_site);
                if !next_to_correct_piece || !matches!(self.board[x][y], Square::Empty) {
                    return Err(());
                }
                building.piece.into_piece()
            },
            BuildablePiece::Mur => {
                let is_site = |piece: &Piece, player: PlayerNumber| -> (r: bool)
                    ensures
                        r == (player == cur && wall_site(*piece)),
                    {
                        player == cur && matches!(
                            piece,
                            Piece::Vej(_) | Piece::By(_) | Piece::Hovedby(_) | Piece::Mur
                        )
                    };
                let next_to_correct_piece = self.has_neighbor_of_kind(x, y, is_site);
                if !next_to_correct_piece || !matches!(self.board[x][y], Square::Empty) {
                    return Err(());
                }
                building.piece.into_piece()
            },
        };
        self.set_square(x, y, Square::from_player_number(cur, new_piece));
        let current_player = self.current_player_mut();
        current_player.potato_count = current_player.potato_count - building.piece.cost();
        current_player.piece_counts.build_piece_unchecked(building.piece);
        Ok(())
    }
}

impl GameState {
    /// Every one of the first `k` steps of `moves` from `(x, y)` lands on the board, on a
    /// capital, town or road of the current player that carries no catapult.
    pub open spec fn path_clear(self, x: int, y: int, moves: Seq<DirectionRet>, k: int) -> bool {
        forall|j: int|
            1 <= j <= k ==> in_bounds(#[trigger] path_pos(x, y, moves, j).0, path_pos(x, y, moves, j).1)
                && self.square(path_pos(x, y, moves, j).0, path_pos(x, y, moves, j).1).friendly_piece(
                self.current_player_number,
            ) is Some
    }

    /// The checks of a catapult move pass: there is at least one step (with none, the
    /// catapult would have to land where it already stands), the mover can pay a potato
    /// per step, a catapult of theirs stands at the start, and every step is clear.
    pub open spec fn move_checks(self, m: KartopultMove) -> bool {
        let n = m.moves@.len() as int;
        &&& n > 0
        &&& self.current().potato_count >= n
        &&& in_bounds(m.x as int, m.y as int)
        &&& self.square(m.x as int, m.y as int).armed_piece(self.current_player_number) is Some
        &&& self.path_clear(m.x as int, m.y as int, m.moves@, n)
    }

    /// The state after the catapult move `m`, or `None` when it is not allowed: the
    /// catapult leaves its start and lands at the end of the path, and the mover pays a
    /// potato per step.
    pub open spec fn move_result(self, m: KartopultMove) -> Option<GameState> {
        let cur = self.current_player_number;
        let n = m.moves@.len() as int;
        if self.move_checks(m) {
            let end = path_pos(m.x as int, m.y as int, m.moves@, n);
            let start_piece = self.square(m.x as int, m.y as int).armed_piece(cur)->Some_0;
            let end_piece = self.square(end.0, end.1).friendly_piece(cur)->Some_0;
            Some(
                self.with_square(
                    end.0,
                    end.1,
                    Square::of(cur, end_piece.with_kartopult(start_piece.kartopult())),
                ).with_square(
                    m.x as int,
                    m.y as int,
                    Square::of(cur, start_piece.with_kartopult(None)),
                ).with_current(self.paid(n)),
            )
        } else {
            None
        }
    }

    /// Follows the steps of `kartopult_move` from its start; the end of the path when
    /// every step is clear.
    fn walk_kartopult(&self, kartopult_move: &KartopultMove) -> (r: Option<(usize, usize)>)
        requires
            in_bounds(kartopult_move.x as int, kartopult_move.y as int),
        ensures
            r is Some <==> self.path_clear(
                kartopult_move.x as int,
                kartopult_move.y as int,
                kartopult_move.moves@,
                kartopult_move.moves@.len() as int,
            ),
            r matches Some(e) ==> (e.0 as int, e.1 as int) == path_pos(
                kartopult_move.x as int,
                kartopult_move.y as int,
                kartopult_move.moves@,
                kartopult_move.moves@.len() as int,
            ) && in_bounds(e.0 as int, e.1 as int),
    {
        let cur = self.current_player_number;
        let cost = kartopult_move.moves.len();
        let ghost moves = kartopult_move.moves@;
        let ghost sx = kartopult_move.x as int;
        let ghost sy = kartopult_move.y as int;
        let mut x: isize = kartopult_move.x as isize;
        let mut y: isize = kartopult_move.y as isize;
        let mut i: usize = 0;
        while i < cost
            invariant
                cost == moves.len(),
                moves == kartopult_move.moves@,
                sx == kartopult_move.x,
                sy == kartopult_move.y,
                cur == self.current_player_number,
                0 <= i <= cost,
                in_bounds(x as int, y as int),
                (x as int, y as int) == path_pos(sx, sy, moves, i as int),
                self.path_clear(sx, sy, moves, i as int),
            decreases cost - i,
        {
            let vector = kartopult_move.moves[i].into_vector();
            x = x + vector.0;
            y = y + vector.1;
            assert((x as int, y as int) == path_pos(sx, sy, moves, i + 1));
            if !self.inbound_isize(x, y) {
                assert(!self.path_clear(sx, sy, moves, cost as int)) by {
                    let j = i + 1;
                    assert(!in_bounds(path_pos(sx, sy, moves, j).0, path_pos(sx, sy, moves, j).1));
                }
                return None;
            }
            let square = self.board[x as usize][y as usize];
            if square.is_kartopult_friendly(cur).is_none() {
                assert(!self.path_clear(sx, sy, moves, cost as int)) by {
                    let j = i + 1;
                    assert(self.square(path_pos(sx, sy, moves, j).0, path_pos(sx, sy, moves, j).1).friendly_piece(cur) is None);
                }
                return None;
            }
            i = i + 1;
        }
        Some((x as usize, y as usize))
    }

    /// Moves a catapult of the player whose turn it is. When the move is not allowed
    /// the state is left as it was and `Err` is returned.
    pub fn move_kartopult(&mut self, kartopult_move: KartopultMove) -> (r: Result<(), ()>)
        requires
            old(self).current_alive(),
        ensures
            match old(self).move_result(kartopult_move) {
                Some(s) => r is Ok && *final(self) == s,
                None => r is Err && *final(self) == *old(self),
            },
    {
        let cost = kartopult_move.moves.len();
        if self.current_player().potato_count < cost {
            return Err(());
        }
        if !self.inbound_usize(kartopult_move.x, kartopult_move.y) {
            return Err(());
        }
        let cur = self.current_player_number;
        let start_piece = self.board[kartopult_move.x][kartopult_move.y].has_kartopult(cur);
        if start_piece.is_none() {
            return Err(());
        }
        let kartopult = match start_piece.unwrap() {
            Piece::Hovedby(Some(kartopult)) | Piece::By(Some(kartopult)) | Piece::Vej(
                Some(kartopult),
            ) => kartopult,
            _ => unreached(),
        };
        if cost == 0 {
            return Err(());
        }
        let end = self.walk_kartopult(&kartopult_move);
        if end.is_none() {
            return Err(());
        }
        let (ex, ey) = end.unwrap();
        assert(old(self).move_checks(kartopult_move));
        let end_piece = self.board[ex][ey].is_kartopult_friendly(cur).unwrap().place_kartopult(
            kartopult,
        ).unwrap();
        self.set_square(ex, ey, Square::from_player_number(cur, end_piece));
        assert(!(ex == kartopult_move.x && ey == kartopult_move.y));
        let start_left = self.board[kartopult_move.x][kartopult_move.y].has_kartopult(
            cur,
        ).unwrap().remove_kartopult().unwrap();
        self.set_square(
            kartopult_move.x,
            kartopult_move.y,
            Square::from_player_number(cur, start_left),
        );
        let current_player = self.current_player_mut();
        current_player.potato_count = current_player.potato_count - cost;
        proof {
            let expected = old(self).move_result(kartopult_move)->Some_0;
            assert(self.players =~= expected.players);
            assert(self.board == expected.board);
        }
        Ok(())
    }
}

impl GameState {
    /// Every square the shot `s` passes over before its target is on the board and
    /// holds no wall.
    pub open spec fn lane_clear(self, s: KartopultShot) -> bool {
        forall|p: int|
            1 <= p < s.power.squares() ==> in_bounds(#[trigger] shot_square(s, p).0, shot_square(s, p).1)
                && !(self.square(shot_square(s, p).0, shot_square(s, p).1).content() matches Some(
                (_, Piece::Mur),
            ))
    }

    /// What the target square of the shot `s` becomes, or `None` when the shot is not
    /// allowed: the shooter pays a potato per square, a catapult of theirs that fires
    /// in that direction stands at the start, no wall is in the way, and the target is
    /// on the board and holds a piece of another player. A capital is ruined; a town,
    /// road or wall is cleared; a ruined capital cannot be shot.
    pub open spec fn shot_hit(self, s: KartopultShot) -> Option<Square> {
        let cur = self.current_player_number;
        let start = self.square(s.x as int, s.y as int).armed_piece(cur);
        let target = shot_square(s, s.power.squares());
        if self.current().potato_count < s.power.squares() || !in_bounds(s.x as int, s.y as int) {
            None
        } else if start is None || !fits(start->Some_0.kartopult()->Some_0, s.direction) {
            None
        } else if !self.lane_clear(s) || !in_bounds(target.0, target.1) {
            None
        } else {
            match self.square(target.0, target.1).content() {
                Some((o, p)) => if o == cur {
                    None
                } else {
                    match p {
                        Piece::Hovedby(_) => Some(Square::of(o, Piece::OedelagtHovedby)),
                        Piece::OedelagtHovedby => None,
                        _ => Some(Square::Empty),
                    }
                },
                None => None,
            }
        }
    }

    /// The state after the shot `s`, or `None` when it is not allowed.
    pub open spec fn shot_result(self, s: KartopultShot) -> Option<GameState> {
        let target = shot_square(s, s.power.squares());
        match self.shot_hit(s) {
            Some(sq) => Some(
                self.with_square(target.0, target.1, sq).with_current(self.paid(s.power.squares())),
            ),
            None => None,
        }
    }

    /// Whether the squares the shot passes over before its target are on the board and
    /// hold no wall.
    fn lane_is_clear(&self, kartopult_shot: &KartopultShot) -> (r: bool)
        requires
            in_bounds(kartopult_shot.x as int, kartopult_shot.y as int),
        ensures
            r == self.lane_clear(*kartopult_shot),
    {
        let vector = kartopult_shot.direction.into_vector();
        let cost = kartopult_shot.power.value();
        let mut power: usize = 1;
        while power < cost
            invariant
                1 <= power <= cost,
                cost == kartopult_shot.power.squares(),
                in_bounds(kartopult_shot.x as int, kartopult_shot.y as int),
                vector.0 == kartopult_shot.direction.vector().0,
                vector.1 == kartopult_shot.direction.vector().1,
                -1 <= vector.0 <= 1,
                -1 <= vector.1 <= 1,
                forall|p: int|
                    1 <= p < power ==> in_bounds(
                        #[trigger] shot_square(*kartopult_shot, p).0,
                        shot_square(*kartopult_shot, p).1,
                    ) && !(self.square(
                        shot_square(*kartopult_shot, p).0,
                        shot_square(*kartopult_shot, p).1,
                    ).content() matches Some((_, Piece::Mur))),
            decreases cost - power,
        {
            let p = power as isize;
            assert(-3 <= p * vector.0 <= 3 && -3 <= p * vector.1 <= 3) by (nonlinear_arith)
                requires
                    1 <= p <= 3,
                    -1 <= vector.0 <= 1,
                    -1 <= vector.1 <= 1,
            ;
            let x = kartopult_shot.x as isize + p * vector.0;
            let y = kartopult_shot.y as isize + p * vector.1;
            assert((x as int, y as int) == shot_square(*kartopult_shot, power as int));
            if !self.inbound_isize(x, y) {
                assert(!in_bounds(
                    shot_square(*kartopult_shot, power as int).0,
                    shot_square(*kartopult_shot, power as int).1,
                ));
                return false;
            }
            let is_wall = match self.board[x as usize][y as usize].owner_and_piece() {
                Some((_, Piece::Mur)) => true,
                _ => false,
            };
            if is_wall {
                assert(self.square(
                    shot_square(*kartopult_shot, power as int).0,
                    shot_square(*kartopult_shot, power as int).1,
                ).content() matches Some((_, Piece::Mur)));
                return false;
            }
            power = power + 1;
        }
        true
    }

    /// Fires a catapult of the player whose turn it is. When the shot is not allowed
    /// the state is left as it was and `Err` is returned.
    pub fn shoot_kartopult(&mut self, kartopult_shot: KartopultShot) -> (r: Result<(), ()>)
        requires
            old(self).current_alive(),
        ensures
            match old(self).shot_result(kartopult_shot) {
                Some(s) => r is Ok && *final(self) == s,
                None => r is Err && *final(self) == *old(self),
            },
    {
        let cost = kartopult_shot.power.value();
        if self.current_player().potato_count < cost {
            return Err(());
        }
        if !self.inbound_usize(kartopult_shot.x, kartopult_shot.y) {
            return Err(());
        }
        let cur = self.current_player_number;
        let kartopult = self.board[kartopult_shot.x][kartopult_shot.y].has_kartopult(cur);
        if kartopult.is_none() {
            return Err(());
        }
        let kartopult = match kartopult.unwrap() {
            Piece::Hovedby(Some(kartopult)) | Piece::By(Some(kartopult)) | Piece::Vej(
                Some(kartopult),
            ) => kartopult,
            _ => unreached(),
        };
        let is_same_direction = match kartopult_shot.direction {
            Direction::Ret(_) => kartopult == Kartopult::Ret,
            Direction::Diagonal(_) => kartopult == Kartopult::Diagonal,
        };
        if !is_same_direction {
            return Err(());
        }
        if !self.lane_is_clear(&kartopult_shot) {
            return Err(());
        }
        let vector = kartopult_shot.direction.into_vector();
        let p = cost as isize;
        assert(-3 <= p * vector.0 <= 3 && -3 <= p * vector.1 <= 3) by (nonlinear_arith)
            requires
                1 <= p <= 3,
                -1 <= vector.0 <= 1,
                -1 <= vector.1 <= 1,
        ;
        let target_x = kartopult_shot.x as isize + p * vector.0;
        let target_y = kartopult_shot.y as isize + p * vector.1;
        if !self.inbound_isize(target_x, target_y) {
            return Err(());
        }
        let tx = target_x as usize;
        let ty = target_y as usize;
        let new_square = match self.board[tx][ty].owner_and_piece() {
            Some((player, piece)) => {
                if player == cur {
                    return Err(());
                }
                match piece {
                    Piece::Hovedby(_) => Square::from_player_number(player, Piece::OedelagtHovedby),
                    Piece::OedelagtHovedby => {
                        return Err(());
                    },
                    _ => Square::Empty,
                }
            },
            None => {
                return Err(());
            },
        };
        assert(old(self).shot_hit(kartopult_shot) == Some(new_square));
        self.set_square(tx, ty, new_square);
        let current_player = self.current_player_mut();
        current_player.potato_count = current_player.potato_count - cost;
        proof {
            let expected = old(self).shot_result(kartopult_shot)->Some_0;
            assert(self.players =~= expected.players);
            assert(self.board == expected.board);
        }
        Ok(())
    }
}

} // verus!
