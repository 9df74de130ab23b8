use vstd::prelude::*;
use crate::actions::{Building, KartopultMove, KartopultShot, Round};
use crate::game::GameState;
use crate::pieces::{Player, PlayerNumber};
use vstd::array::spec_array_update;
use crate::scan::lemma_cells_ext;
use crate::laws::{
    lemma_capital_counts,
    lemma_move_no_new_capital,
    lemma_shot_no_new_capital,
};

verus! {

/// The state after the buildings `bs`, one after the other: `build` refuses every
/// building, so the list goes through only when it is empty.
pub open spec fn builds_result(s: GameState, bs: Seq<Building>) -> Option<GameState> {
    if bs.len() == 0 {
        Some(s)
    } else {
        None
    }
}

/// The buildings `bs` are ones `build` returns on: the first, which is refused, is one
/// it can check (the later ones are never tried).
pub open spec fn builds_safe(s: GameState, bs: Seq<Building>) -> bool {
    bs.len() > 0 ==> s.build_safe(bs[0])
}

/// The state after the catapult moves `ms`, one after the other, or `None` when one of
/// them is not allowed.
pub open spec fn moves_result(s: GameState, ms: Seq<KartopultMove>) -> Option<GameState>
    decreases ms.len(),
{
    if ms.len() == 0 {
        Some(s)
    } else {
        match moves_result(s, ms.drop_last()) {
            Some(t) => t.move_result(ms.last()),
            None => None,
        }
    }
}

/// The state after the shots `ss`, one after the other, or `None` when one of them is
/// not allowed.
pub open spec fn shots_result(s: GameState, ss: Seq<KartopultShot>) -> Option<GameState>
    decreases ss.len(),
{
    if ss.len() == 0 {
        Some(s)
    } else {
        match shots_result(s, ss.drop_last()) {
            Some(t) => t.shot_result(ss.last()),
            None => None,
        }
    }
}

impl GameState {
    /// This state after the current player has harvested their potatoes.
    pub open spec fn harvested(self) -> GameState {
        self.with_current(
            Player {
                potato_count: (self.current().potato_count + self.harvest()) as usize,
                ..self.current()
            },
        )
    }

    /// The state after the harvest and the actions of `round`, or `None` when one of
    /// the actions is not allowed.
    pub open spec fn after_actions(self, round: Round) -> Option<GameState> {
        match builds_result(self.harvested(), round.builds@) {
            Some(s1) => match moves_result(s1, round.kartopult_moves@) {
                Some(s2) => shots_result(s2, round.kartopult_shots@),
                None => None,
            },
            None => None,
        }
    }

    /// This state with the seat of every player who has no capital left emptied.
    pub open spec fn without_dead(self) -> GameState {
        let p0 = self.players;
        let p1 = if self.hovedby_count(PlayerNumber::PlayerOne) == 0 {
            spec_array_update(p0, 0, None)
        } else {
            p0
        };
        let p2 = if self.hovedby_count(PlayerNumber::PlayerTwo) == 0 {
            spec_array_update(p1, 1, None)
        } else {
            p1
        };
        let p3 = if self.hovedby_count(PlayerNumber::PlayerThree) == 0 {
            spec_array_update(p2, 2, None)
        } else {
            p2
        };
        let p4 = if self.hovedby_count(PlayerNumber::PlayerFour) == 0 {
            spec_array_update(p3, 3, None)
        } else {
            p3
        };
        GameState { players: p4, ..self }
    }

    /// This state with the turn passed on to the next player still in the game.
    pub open spec fn rotated(self) -> GameState {
        GameState { current_player_number: PlayerNumber::of_seat(self.next_seat()), ..self }
    }

    /// The state after the whole turn `round`, or `None` when one of its actions is not
    /// allowed.
    pub open spec fn round_result(self, round: Round) -> Option<GameState> {
        match self.after_actions(round) {
            Some(s) => Some(s.without_dead().rotated()),
            None => None,
        }
    }

    /// The inputs on which a turn runs to its end: the current player is in the game,
    /// no player has more than four capitals, the current player's capitals lie inside
    /// the border row, the harvest fits in a `usize`, the first building (if any) is one
    /// `build` can check, and when every action is allowed someone is left in the game
    /// at the end.
    pub open spec fn round_safe(self, round: Round) -> bool {
        &&& self.current_alive()
        &&& self.hovedbyer_fit()
        &&& self.capitals_inside()
        &&& self.current().potato_count + self.harvest() <= usize::MAX
        &&& builds_safe(self.harvested(), round.builds@)
        &&& self.after_actions(round) matches Some(s3) ==> s3.without_dead().any_alive()
    }
}

/// One more move, one more step of the fold.
pub proof fn lemma_moves_step(s: GameState, ms: Seq<KartopultMove>, i: int)
    requires
        0 <= i < ms.len(),
    ensures
        moves_result(s, ms.take(i + 1)) == match moves_result(s, ms.take(i)) {
            Some(t) => t.move_result(ms[i]),
            None => None,
        },
{
    assert(ms.take(i + 1).drop_last() =~= ms.take(i));
}

/// Once a move is refused, the whole list is.
pub proof fn lemma_moves_stuck(s: GameState, ms: Seq<KartopultMove>, i: int)
    requires
        0 <= i <= ms.len(),
        moves_result(s, ms.take(i)) is None,
    ensures
        moves_result(s, ms) is None,
    decreases ms.len() - i,
{
    if i == ms.len() {
        assert(ms.take(i) =~= ms);
    } else {
        lemma_moves_step(s, ms, i);
        lemma_moves_stuck(s, ms, i + 1);
    }
}

/// One more shot, one more step of the fold.
pub proof fn lemma_shots_step(s: GameState, ss: Seq<KartopultShot>, i: int)
    requires
        0 <= i < ss.len(),
    ensures
        shots_result(s, ss.take(i + 1)) == match shots_result(s, ss.take(i)) {
            Some(t) => t.shot_result(ss[i]),
            None => None,
        },
{
    assert(ss.take(i + 1).drop_last() =~= ss.take(i));
}

/// Once a shot is refused, the whole list is.
pub proof fn lemma_shots_stuck(s: GameState, ss: Seq<KartopultShot>, i: int)
    requires
        0 <= i <= ss.len(),
        shots_result(s, ss.take(i)) is None,
    ensures
        shots_result(s, ss) is None,
    decreases ss.len() - i,
{
    if i == ss.len() {
        assert(ss.take(i) =~= ss);
    } else {
        lemma_shots_step(s, ss, i);
        lemma_shots_stuck(s, ss, i + 1);
    }
}

/// Buildings that go through leave the state as it was.
pub proof fn lemma_builds_keep(s: GameState, bs: Seq<Building>)
    requires
        builds_result(s, bs) is Some,
    ensures
        builds_result(s, bs)->Some_0 == s,
{
}

/// Catapult moves keep the current player in the game and put up no capital.
pub proof fn lemma_moves_keep(s: GameState, ms: Seq<KartopultMove>)
    requires
        s.current_alive(),
        moves_result(s, ms) is Some,
    ensures
        moves_result(s, ms)->Some_0.current_alive(),
        moves_result(s, ms)->Some_0.current_player_number == s.current_player_number,
        forall|player: PlayerNumber|
            #[trigger] moves_result(s, ms)->Some_0.hovedby_count(player) <= s.hovedby_count(player),
        forall|i: int| 0 <= i < 4 ==> #[trigger] moves_result(s, ms)->Some_0.alive(i) == s.alive(i),
    decreases ms.len(),
{
    if ms.len() > 0 {
        lemma_moves_keep(s, ms.drop_last());
        let t = moves_result(s, ms.drop_last())->Some_0;
        lemma_move_no_new_capital(t, ms.last());
        lemma_capital_counts(t, t.move_result(ms.last())->Some_0);
    }
}

/// Shots keep the current player in the game and put up no capital.
pub proof fn lemma_shots_keep(s: GameState, ss: Seq<KartopultShot>)
    requires
        s.current_alive(),
        shots_result(s, ss) is Some,
    ensures
        shots_result(s, ss)->Some_0.current_alive(),
        shots_result(s, ss)->Some_0.current_player_number == s.current_player_number,
        forall|player: PlayerNumber|
            #[trigger] shots_result(s, ss)->Some_0.hovedby_count(player) <= s.hovedby_count(player),
        forall|i: int| 0 <= i < 4 ==> #[trigger] shots_result(s, ss)->Some_0.alive(i) == s.alive(i),
    decreases ss.len(),
{
    if ss.len() > 0 {
        lemma_shots_keep(s, ss.drop_last());
        let t = shots_result(s, ss.drop_last())->Some_0;
        lemma_shot_no_new_capital(t, ss.last());
        lemma_capital_counts(t, t.shot_result(ss.last())->Some_0);
    }
}

impl GameState {
    /// Carries out the buildings in order, stopping at the first that is refused.
    fn run_builds(&mut self, builds: &Vec<Building>) -> (r: Result<(), ()>)
        requires
            old(self).current_alive(),
            builds_safe(*old(self), builds@),
        ensures
            match builds_result(*old(self), builds@) {
                Some(s) => r is Ok && *final(self) == s,
                None => r is Err,
            },
    {
        let mut i: usize = 0;
        while i < builds.len()
            invariant
                i == 0,
                *self == *old(self),
                self.current_alive(),
                builds_safe(*self, builds@),
            decreases builds@.len() - i,
        {
            let result = self.build(builds[i]);
            if result.is_err() {
                return Err(());
            }
            i = i + 1;
        }
        Ok(())
    }

    /// Carries out the catapult moves in order, stopping at the first that is refused.
    fn run_moves(&mut self, kartopult_moves: Vec<KartopultMove>) -> (r: Result<(), ()>)
        requires
            old(self).current_alive(),
        ensures
            match moves_result(*old(self), kartopult_moves@) {
                Some(s) => r is Ok && *final(self) == s,
                None => r is Err,
            },
    {
        let ghost s0 = *self;
        let ghost moves = kartopult_moves@;
        let mut remaining = kartopult_moves;
        let count = remaining.len();
        let mut j: usize = 0;
        while j < count
            invariant
                count == moves.len(),
                0 <= j <= count,
                remaining@ == moves.skip(j as int),
                moves == kartopult_moves@,
                s0 == *old(self),
                moves_result(s0, moves.take(j as int)) == Some(*self),
                self.current_alive(),
            decreases count - j,
        {
            proof {
                lemma_moves_step(s0, moves, j as int);
            }
            let kartopult_move = remaining.remove(0);
            proof {
                assert(remaining@ =~= moves.skip(j + 1));
                assert(kartopult_move == moves[j as int]);
            }
            let ghost before = *self;
            let result = self.move_kartopult(kartopult_move);
            if result.is_err() {
                proof {
                    lemma_moves_stuck(s0, moves, j + 1);
                }
                return Err(());
            }
            proof {
                lemma_move_no_new_capital(before, moves[j as int]);
            }
            j = j + 1;
        }
        proof {
            assert(moves.take(moves.len() as int) =~= moves);
        }
        Ok(())
    }

    /// Carries out the shots in order, stopping at the first that is refused.
    fn run_shots(&mut self, kartopult_shots: &Vec<KartopultShot>) -> (r: Result<(), ()>)
        requires
            old(self).current_alive(),
        ensures
            match shots_result(*old(self), kartopult_shots@) {
                Some(s) => r is Ok && *final(self) == s,
                None => r is Err,
            },
    {
        let ghost s0 = *self;
        let mut i: usize = 0;
        while i < kartopult_shots.len()
            invariant
                0 <= i <= kartopult_shots@.len(),
                s0 == *old(self),
                shots_result(s0, kartopult_shots@.take(i as int)) == Some(*self),
                self.current_alive(),
            decreases kartopult_shots@.len() - i,
        {
            proof {
                lemma_shots_step(s0, kartopult_shots@, i as int);
            }
            let ghost before = *self;
            let result = self.shoot_kartopult(kartopult_shots[i]);
            if result.is_err() {
                proof {
                    lemma_shots_stuck(s0, kartopult_shots@, i + 1);
                }
                return Err(());
            }
            proof {
                lemma_shot_no_new_capital(before, kartopult_shots@[i as int]);
            }
            i = i + 1;
        }
        proof {
            assert(kartopult_shots@.take(kartopult_shots@.len() as int) =~= kartopult_shots@);
        }
        Ok(())
    }

    /// Plays the turn `round` for the player whose turn it is, on a copy of this state:
    /// they harvest their potatoes, then the buildings, catapult moves and shots are
    /// carried out in order, players left without a capital leave the game, and the
    /// turn passes to the next player still in it. When an action is not allowed the
    /// whole turn is refused with `Err`.
    pub fn apply_round(&self, round: Round) -> (r: Result<Self, ()>)
        requires
            self.round_safe(round),
        ensures
            match self.round_result(round) {
                Some(s) => r == Ok::<GameState, ()>(s),
                None => r is Err,
            },
    {
        let mut game_state = GameState {
            current_player_number: self.current_player_number,
            players: self.players,
            board: self.board,
        };
        let potatoes_produced = self.potatos_produced();
        let current_player = game_state.current_player_mut();
        current_player.potato_count = current_player.potato_count + potatoes_produced;
        proof {
            assert(game_state.players =~= self.harvested().players);
        }
        let ghost s0 = game_state;
        let ghost rnd = round;
        let Round { builds, kartopult_moves, kartopult_shots } = round;
        if game_state.run_builds(&builds).is_err() {
            return Err(());
        }
        proof {
            lemma_builds_keep(s0, builds@);
        }
        let ghost s1 = game_state;
        if game_state.run_moves(kartopult_moves).is_err() {
            return Err(());
        }
        proof {
            lemma_moves_keep(s1, rnd.kartopult_moves@);
        }
        let ghost s2 = game_state;
        if game_state.run_shots(&kartopult_shots).is_err() {
            return Err(());
        }
        proof {
            lemma_shots_keep(s2, kartopult_shots@);
            lemma_cells_ext(s0.hovedby_pred(PlayerNumber::PlayerOne), self.hovedby_pred(PlayerNumber::PlayerOne), 20, 0);
            lemma_cells_ext(s0.hovedby_pred(PlayerNumber::PlayerTwo), self.hovedby_pred(PlayerNumber::PlayerTwo), 20, 0);
            lemma_cells_ext(s0.hovedby_pred(PlayerNumber::PlayerThree), self.hovedby_pred(PlayerNumber::PlayerThree), 20, 0);
            lemma_cells_ext(s0.hovedby_pred(PlayerNumber::PlayerFour), self.hovedby_pred(PlayerNumber::PlayerFour), 20, 0);
            assert(game_state.hovedbyer_fit()) by {
                assert forall|player: PlayerNumber| #[trigger] game_state.hovedby_count(player) <= 4 by {
                    assert(self.hovedby_count(player) <= 4);
                    match player {
                        PlayerNumber::PlayerOne => {},
                        PlayerNumber::PlayerTwo => {},
                        PlayerNumber::PlayerThree => {},
                        PlayerNumber::PlayerFour => {},
                    }
                }
            }
        }
        let ghost s3 = game_state;
        assert(self.after_actions(rnd) == Some(s3));
        assert(s3.without_dead().any_alive());
        let hovedbyer = game_state.get_hovedbyer();
        let mut seat: usize = 0;
        while seat < 4
            invariant
                0 <= seat <= 4,
                game_state.board == s3.board,
                game_state.current_player_number == s3.current_player_number,
                forall|s: int, k: int|
                    0 <= s < 4 && 0 <= k < 4 ==> #[trigger] hovedbyer@[s]@[k] == (if k < s3.hovedby_count(
                        PlayerNumber::of_seat(s),
                    ) {
                        Some(s3.hovedby_cells(PlayerNumber::of_seat(s))[k])
                    } else {
                        None
                    }),
                forall|s: int|
                    0 <= s < 4 ==> #[trigger] game_state.players@[s] == (if s < seat
                        && s3.hovedby_count(PlayerNumber::of_seat(s)) == 0 {
                        None
                    } else {
                        s3.players@[s]
                    }),
            decreases 4 - seat,
        {
            let players_hovedby = hovedbyer[seat];
            let mut is_alive = false;
            let mut k: usize = 0;
            while k < 4
                invariant
                    0 <= k <= 4,
                    0 <= seat < 4,
                    players_hovedby == hovedbyer@[seat as int],
                    is_alive == (exists|m: int| 0 <= m < k && (#[trigger] players_hovedby@[m]) is Some),
                decreases 4 - k,
            {
                if players_hovedby[k].is_some() {
                    is_alive = true;
                }
                k = k + 1;
            }
            proof {
                if s3.hovedby_count(PlayerNumber::of_seat(seat as int)) > 0 {
                    assert(players_hovedby@[0] is Some);
                }
            }
            if !is_alive {
                game_state.players[seat] = None;
            }
            seat = seat + 1;
        }
        proof {
            let expected = s3.without_dead();
            assert(game_state.players =~= expected.players);
        }
        game_state.current_player_number = game_state.next_player();
        Ok(game_state)
    }
}

} // verus!
