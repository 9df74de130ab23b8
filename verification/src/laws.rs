use vstd::prelude::*;
use crate::actions::{Building, KartopultMove, KartopultShot, Round};
use crate::game::{GameState, in_bounds};
use crate::pieces::{Kartopult, Piece, Player, PlayerNumber, Square};
use crate::round::{
    builds_result,
    lemma_builds_keep,
    lemma_moves_keep,
    lemma_shots_keep,
    moves_result,
    shots_result,
};
use crate::scan::{
    count_cells,
    lemma_cells_add,
    lemma_cells_ext,
    lemma_cells_mono,
};
use crate::turn::{path_pos, shot_square};

verus! {

/// No square of `t` holds a capital that the same square of `s` did not hold.
pub open spec fn no_new_capital(s: GameState, t: GameState) -> bool {
    forall|a: int, b: int, player: PlayerNumber|
        in_bounds(a, b) && #[trigger] t.square(a, b).holds_capital_of(player) ==> s.square(
            a,
            b,
        ).holds_capital_of(player)
}

/// Where no capital appears, no player has more capitals than before.
pub proof fn lemma_capital_counts(s: GameState, t: GameState)
    requires
        no_new_capital(s, t),
    ensures
        forall|player: PlayerNumber| #[trigger] t.hovedby_count(player) <= s.hovedby_count(player),
{
    assert forall|player: PlayerNumber| #[trigger] t.hovedby_count(player) <= s.hovedby_count(
        player,
    ) by {
        assert forall|a: int, b: int|
            0 <= a < 20 && 0 <= b < 20 && #[trigger] t.hovedby_pred(player)(a, b) implies s.hovedby_pred(
            player,
        )(a, b) by {}
        lemma_cells_mono(s.hovedby_pred(player), t.hovedby_pred(player), 20, 0);
    }
}

/// A catapult move never puts up a capital.
pub proof fn lemma_move_no_new_capital(s: GameState, m: KartopultMove)
    requires
        s.current_alive(),
        s.move_result(m) is Some,
    ensures
        no_new_capital(s, s.move_result(m)->Some_0),
        s.move_result(m)->Some_0.current_alive(),
        s.move_result(m)->Some_0.current_player_number == s.current_player_number,
        forall|i: int| 0 <= i < 4 ==> #[trigger] s.move_result(m)->Some_0.alive(i) == s.alive(i),
{
    let t = s.move_result(m)->Some_0;
    let cur = s.current_player_number;
    let n = m.moves@.len() as int;
    let end = path_pos(m.x as int, m.y as int, m.moves@, n);
    let start_piece = s.square(m.x as int, m.y as int).armed_piece(cur)->Some_0;
    let end_piece = s.square(end.0, end.1).friendly_piece(cur)->Some_0;
    let sq1 = Square::of(cur, end_piece.with_kartopult(start_piece.kartopult()));
    let s1 = s.with_square(end.0, end.1, sq1);
    let sq2 = Square::of(cur, start_piece.with_kartopult(None));
    let s2 = s1.with_square(m.x as int, m.y as int, sq2);
    assert(in_bounds(end.0, end.1));
    assert forall|a: int, c: int, player: PlayerNumber|
        in_bounds(a, c) && #[trigger] t.square(a, c).holds_capital_of(player) implies s.square(
        a,
        c,
    ).holds_capital_of(player) by {
        assert(t.board == s2.board);
        s1.lemma_with_square_at(m.x as int, m.y as int, sq2, a, c);
        s.lemma_with_square_at(end.0, end.1, sq1, a, c);
    }
}

/// A shot never puts up a capital.
pub proof fn lemma_shot_no_new_capital(s: GameState, shot: KartopultShot)
    requires
        s.current_alive(),
        s.shot_result(shot) is Some,
    ensures
        no_new_capital(s, s.shot_result(shot)->Some_0),
        s.shot_result(shot)->Some_0.current_alive(),
        s.shot_result(shot)->Some_0.current_player_number == s.current_player_number,
        forall|i: int| 0 <= i < 4 ==> #[trigger] s.shot_result(shot)->Some_0.alive(i) == s.alive(i),
{
    let t = s.shot_result(shot)->Some_0;
    let target = shot_square(shot, shot.power.squares());
    let sq = s.shot_hit(shot)->Some_0;
    assert forall|a: int, c: int, player: PlayerNumber|
        in_bounds(a, c) && #[trigger] t.square(a, c).holds_capital_of(player) implies s.square(
        a,
        c,
    ).holds_capital_of(player) by {
        assert(t.board == s.with_square(target.0, target.1, sq).board);
        s.lemma_with_square_at(target.0, target.1, sq, a, c);
    }
}

/// Putting a catapult on a piece that can carry one, then taking it off again, gives
/// back the piece; while it stands there the piece carries exactly that catapult.
pub proof fn law_kartopult_place_remove(p: Piece, k: Kartopult)
    requires
        p.can_carry_kartopult(),
    ensures
        p.with_kartopult(Some(k)).kartopult() == Some(k),
        !p.with_kartopult(Some(k)).can_carry_kartopult(),
        p.with_kartopult(Some(k)).with_kartopult(None) == p,
{
}

/// A square built from an owner and a piece gives them back, and every occupied square
/// is built that way.
pub proof fn law_square_content(player: PlayerNumber, piece: Piece, sq: Square)
    ensures
        Square::of(player, piece).content() == Some((player, piece)),
        sq.content() matches Some((o, p)) ==> sq == Square::of(o, p),
        sq.content() is None <==> sq is Empty,
{
}

/// Seats and their numbers 0 to 3 correspond one to one.
pub proof fn law_seat_numbers(player: PlayerNumber, i: int)
    ensures
        0 <= player.seat() < 4,
        PlayerNumber::of_seat(player.seat()) == player,
        0 <= i < 4 ==> PlayerNumber::of_seat(i).seat() == i,
{
}

/// The turn passes to a player still in the game, and every seat passed over on the
/// way round the table is empty; it comes back to the same seat only when every other
/// seat is empty.
pub proof fn law_next_seat(s: GameState)
    requires
        s.any_alive(),
    ensures
        0 <= s.next_seat() < 4,
        s.alive(s.next_seat()),
        forall|k: int|
            1 <= k < ((s.next_seat() - s.seat() + 3) % 4) + 1 ==> !#[trigger] s.alive(
                (s.seat() + k) % 4,
            ),
{
}

/// A catapult move takes the catapult off its start and puts the same catapult on the
/// end of the path, changes no other square, costs a potato per step, and leaves the
/// other players untouched.
pub proof fn law_move_effect(s: GameState, m: KartopultMove)
    requires
        s.current_alive(),
        s.move_result(m) is Some,
    ensures
        ({
            let t = s.move_result(m)->Some_0;
            let cur = s.current_player_number;
            let end = path_pos(m.x as int, m.y as int, m.moves@, m.moves@.len() as int);
            &&& t.square(m.x as int, m.y as int).armed_piece(cur) is None
            &&& t.square(end.0, end.1).armed_piece(cur) matches Some(p) && p.kartopult() == s.square(
                m.x as int,
                m.y as int,
            ).armed_piece(cur)->Some_0.kartopult()
            &&& forall|a: int, c: int|
                in_bounds(a, c) && !(a == m.x && c == m.y) && !(a == end.0 && c == end.1)
                    ==> #[trigger] t.square(a, c) == s.square(a, c)
            &&& t.current().potato_count + m.moves@.len() == s.current().potato_count
            &&& t.current_player_number == s.current_player_number
            &&& forall|i: int| 0 <= i < 4 && i != s.seat() ==> #[trigger] t.players@[i] == s.players@[i]
        }),
{
    let t = s.move_result(m)->Some_0;
    let cur = s.current_player_number;
    let n = m.moves@.len() as int;
    let end = path_pos(m.x as int, m.y as int, m.moves@, n);
    let start_piece = s.square(m.x as int, m.y as int).armed_piece(cur)->Some_0;
    let end_piece = s.square(end.0, end.1).friendly_piece(cur)->Some_0;
    let sq1 = Square::of(cur, end_piece.with_kartopult(start_piece.kartopult()));
    let s1 = s.with_square(end.0, end.1, sq1);
    let sq2 = Square::of(cur, start_piece.with_kartopult(None));
    assert forall|a: int, c: int|
        in_bounds(a, c) && !(a == m.x && c == m.y) && !(a == end.0 && c == end.1) implies #[trigger] t.square(
        a,
        c,
    ) == s.square(a, c) by {
        s1.lemma_with_square_at(m.x as int, m.y as int, sq2, a, c);
        s.lemma_with_square_at(end.0, end.1, sq1, a, c);
    }
    assert(in_bounds(path_pos(m.x as int, m.y as int, m.moves@, n).0, path_pos(m.x as int, m.y as int, m.moves@, n).1));
    assert(!(end.0 == m.x && end.1 == m.y));
    s1.lemma_with_square_at(m.x as int, m.y as int, sq2, m.x as int, m.y as int);
    s1.lemma_with_square_at(m.x as int, m.y as int, sq2, end.0, end.1);
    s.lemma_with_square_at(end.0, end.1, sq1, end.0, end.1);
}

/// A shot changes only its target square, never a square of the shooter, costs a potato
/// per square of range, and leaves the other players untouched.
pub proof fn law_shot_effect(s: GameState, shot: KartopultShot)
    requires
        s.current_alive(),
        s.shot_result(shot) is Some,
    ensures
        ({
            let t = s.shot_result(shot)->Some_0;
            let target = shot_square(shot, shot.power.squares());
            &&& forall|a: int, c: int|
                in_bounds(a, c) && !(a == target.0 && c == target.1) ==> #[trigger] t.square(a, c)
                    == s.square(a, c)
            &&& forall|a: int, c: int| #[trigger] s.own_piece(a, c) is Some ==> t.square(a, c) == s.square(a, c)
            &&& t.current().potato_count + shot.power.squares() == s.current().potato_count
            &&& t.current_player_number == s.current_player_number
            &&& forall|i: int| 0 <= i < 4 && i != s.seat() ==> #[trigger] t.players@[i] == s.players@[i]
        }),
{
    let t = s.shot_result(shot)->Some_0;
    let target = shot_square(shot, shot.power.squares());
    let sq = s.shot_hit(shot)->Some_0;
    assert forall|a: int, c: int| in_bounds(a, c) && !(a == target.0 && c == target.1) implies #[trigger] t.square(
        a,
        c,
    ) == s.square(a, c) by {
        s.lemma_with_square_at(target.0, target.1, sq, a, c);
    }
    assert forall|a: int, c: int| #[trigger] s.own_piece(a, c) is Some implies t.square(a, c) == s.square(a, c) by {
        s.lemma_with_square_at(target.0, target.1, sq, a, c);
    }
}

/// States with the same board give every player the same number of capitals.
pub proof fn lemma_same_board_counts(a: GameState, b: GameState)
    requires
        a.board == b.board,
    ensures
        forall|player: PlayerNumber| #[trigger] a.hovedby_count(player) == b.hovedby_count(player),
{
    assert forall|player: PlayerNumber| #[trigger] a.hovedby_count(player) == b.hovedby_count(
        player,
    ) by {
        lemma_cells_ext(a.hovedby_pred(player), b.hovedby_pred(player), 20, 0);
    }
}

/// After a turn in which someone is left in the game, the turn has passed to the first
/// seat after the one that played, going round the table, whose player is in the game,
/// and every seat passed over is empty; a player is in the game exactly when they were
/// before and still have a capital, so no one comes back and no one with a capital is
/// put out; and no player has gained a capital.
pub proof fn law_round_outcome(s: GameState, round: Round)
    requires
        s.current_alive(),
        s.round_result(round) is Some,
        s.round_result(round)->Some_0.any_alive(),
    ensures
        ({
            let t = s.round_result(round)->Some_0;
            &&& t.current_alive()
            &&& forall|k: int|
                1 <= k < ((t.seat() - s.seat() + 3) % 4) + 1 ==> !#[trigger] t.alive(
                    (s.seat() + k) % 4,
                )
            &&& forall|i: int|
                0 <= i < 4 ==> (#[trigger] t.alive(i) <==> (s.alive(i) && t.hovedby_count(
                    PlayerNumber::of_seat(i),
                ) > 0))
            &&& forall|player: PlayerNumber| #[trigger] t.hovedby_count(player) <= s.hovedby_count(
                player,
            )
        }),
{
    let s0 = s.harvested();
    s.lemma_with_current(
        Player { potato_count: (s.current().potato_count + s.harvest()) as usize, ..s.current() },
    );
    lemma_same_board_counts(s0, s);
    lemma_builds_keep(s0, round.builds@);
    let s1 = builds_result(s0, round.builds@)->Some_0;
    lemma_moves_keep(s1, round.kartopult_moves@);
    let s2 = moves_result(s1, round.kartopult_moves@)->Some_0;
    lemma_shots_keep(s2, round.kartopult_shots@);
    let s3 = shots_result(s2, round.kartopult_shots@)->Some_0;
    let d = s3.without_dead();
    let t = d.rotated();
    assert(d.players == t.players);
    assert(d.any_alive());
    law_next_seat(d);
    assert(d.seat() == s.seat());
    lemma_same_board_counts(t, s3);
    assert forall|i: int| 0 <= i < 4 implies (#[trigger] t.alive(i) <==> (s.alive(i)
        && t.hovedby_count(PlayerNumber::of_seat(i)) > 0)) by {
        assert(s0.alive(i) == s.alive(i));
        assert(s1.alive(i) == s0.alive(i));
        assert(s2.alive(i) == s1.alive(i));
        assert(s3.alive(i) == s2.alive(i));
        assert(t.hovedby_count(PlayerNumber::of_seat(i)) == s3.hovedby_count(PlayerNumber::of_seat(i)));
        if i == 0 {
        } else if i == 1 {
        } else if i == 2 {
        } else {
        }
    }
    assert forall|player: PlayerNumber| #[trigger] t.hovedby_count(player) <= s.hovedby_count(
        player,
    ) by {
        assert(s0.hovedby_count(player) == s.hovedby_count(player));
        assert(s1.hovedby_count(player) <= s0.hovedby_count(player));
        assert(s2.hovedby_count(player) <= s1.hovedby_count(player));
        assert(s3.hovedby_count(player) <= s2.hovedby_count(player));
    }
}

/// Putting any piece of the current player on an empty square, such as laying one more
/// road, never lowers their harvest.
pub proof fn law_new_piece_keeps_harvest(s: GameState, x: int, y: int, piece: Piece)
    requires
        in_bounds(x, y),
        s.square(x, y) is Empty,
    ensures
        s.with_square(x, y, Square::of(s.current_player_number, piece)).harvest() >= s.harvest(),
{
    let cur = s.current_player_number;
    let t = s.with_square(x, y, Square::of(cur, piece));
    assert forall|a: int, b: int|
        0 <= a < 20 && 0 <= b < 20 && #[trigger] s.hovedby_pred(cur)(a, b) implies t.hovedby_pred(
        cur,
    )(a, b) by {
        s.lemma_with_square_at(x, y, Square::of(cur, piece), a, b);
    }
    lemma_cells_mono(t.hovedby_pred(cur), s.hovedby_pred(cur), 20, 0);
}

/// The number of catapults of `player` of kind `k` standing on the board.
pub open spec fn kartopult_count(s: GameState, player: PlayerNumber, k: Kartopult) -> nat {
    count_cells(kartopult_pred(s, player, k))
}

/// Cell `(a, b)` holds a piece of `player` that carries a catapult of kind `k`.
pub open spec fn kartopult_pred(s: GameState, player: PlayerNumber, k: Kartopult) -> spec_fn(
    int,
    int,
) -> bool {
    |a: int, b: int|
        match s.square(a, b).content() {
            Some((o, p)) => o == player && p.kartopult() == Some(k),
            None => false,
        }
}

/// A catapult move neither creates nor destroys a catapult: every player keeps as many
/// catapults of each kind on the board as before.
pub proof fn law_move_keeps_kartopults(s: GameState, m: KartopultMove)
    requires
        s.current_alive(),
        s.move_result(m) is Some,
    ensures
        forall|player: PlayerNumber, k: Kartopult|
            #[trigger] kartopult_count(s.move_result(m)->Some_0, player, k) == kartopult_count(
                s,
                player,
                k,
            ),
{
    let t = s.move_result(m)->Some_0;
    let cur = s.current_player_number;
    let n = m.moves@.len() as int;
    let (sx, sy) = (m.x as int, m.y as int);
    let end = path_pos(sx, sy, m.moves@, n);
    let (ex, ey) = (end.0, end.1);
    let start_piece = s.square(sx, sy).armed_piece(cur)->Some_0;
    let end_piece = s.square(ex, ey).friendly_piece(cur)->Some_0;
    let k0 = start_piece.kartopult()->Some_0;
    let sq1 = Square::of(cur, end_piece.with_kartopult(start_piece.kartopult()));
    let s1 = s.with_square(ex, ey, sq1);
    let sq2 = Square::of(cur, start_piece.with_kartopult(None));
    assert(in_bounds(path_pos(sx, sy, m.moves@, n).0, path_pos(sx, sy, m.moves@, n).1));
    assert(!(ex == sx && ey == sy));
    assert(t.board == s1.with_square(sx, sy, sq2).board);
    assert forall|a: int, c: int| in_bounds(a, c) implies #[trigger] t.square(a, c) == (if a == sx
        && c == sy {
        sq2
    } else if a == ex && c == ey {
        sq1
    } else {
        s.square(a, c)
    }) by {
        s1.lemma_with_square_at(sx, sy, sq2, a, c);
        s.lemma_with_square_at(ex, ey, sq1, a, c);
    }
    assert forall|player: PlayerNumber, k: Kartopult|
        #[trigger] kartopult_count(t, player, k) == kartopult_count(s, player, k) by {
        let ps = kartopult_pred(s, player, k);
        let pt = kartopult_pred(t, player, k);
        assert(t.square(sx, sy) == sq2);
        assert(t.square(ex, ey) == sq1);
        if player == cur && k == k0 {
            let mid = |a: int, b: int| ps(a, b) && !(a == sx && b == sy);
            lemma_cells_add(mid, ps, sx, sy, 20, 0);
            lemma_cells_add(mid, pt, ex, ey, 20, 0);
        } else {
            lemma_cells_ext(ps, pt, 20, 0);
        }
    }
}

/// A shot is fired only by a catapult of the shooter standing at its start whose kind
/// matches the direction: a straight catapult fires straight, a diagonal one
/// diagonally. A catapult of the other kind refuses the shot.
pub proof fn law_shot_needs_matching_kartopult(s: GameState, shot: KartopultShot)
    requires
        s.shot_result(shot) is Some,
    ensures
        in_bounds(shot.x as int, shot.y as int),
        s.square(shot.x as int, shot.y as int).content() is Some,
        s.square(shot.x as int, shot.y as int).content()->Some_0.0 == s.current_player_number,
        shot.direction is Ret ==> s.square(shot.x as int, shot.y as int).content()->Some_0.1.kartopult()
            == Some(Kartopult::Ret),
        shot.direction is Diagonal ==> s.square(
            shot.x as int,
            shot.y as int,
        ).content()->Some_0.1.kartopult() == Some(Kartopult::Diagonal),
{
}

/// A wall of any player on a square that a shot passes over, before its target,
/// blocks the shot.
pub proof fn law_wall_blocks_shot(s: GameState, shot: KartopultShot, p: int)
    requires
        1 <= p < shot.power.squares(),
        s.square(shot_square(shot, p).0, shot_square(shot, p).1).content() is Some,
        s.square(shot_square(shot, p).0, shot_square(shot, p).1).content()->Some_0.1 == Piece::Mur,
    ensures
        s.shot_result(shot) is None,
{
}

/// A shot that goes through hits a piece of another player on the board: a capital,
/// with or without a catapult, is left as that player's ruined capital; a town, road or
/// wall is cleared away. No capital is ever left standing on the target.
pub proof fn law_shot_hits_target(s: GameState, shot: KartopultShot)
    requires
        s.current_alive(),
        s.shot_result(shot) is Some,
    ensures
        ({
            let target = shot_square(shot, shot.power.squares());
            let t = s.shot_result(shot)->Some_0;
            &&& in_bounds(target.0, target.1)
            &&& s.square(target.0, target.1).content() is Some
            &&& s.square(target.0, target.1).content()->Some_0.0 != s.current_player_number
            &&& s.square(target.0, target.1).content()->Some_0.1 != Piece::OedelagtHovedby
            &&& s.square(target.0, target.1).content()->Some_0.1 is Hovedby ==> t.square(target.0, target.1)
                == Square::of(s.square(target.0, target.1).content()->Some_0.0, Piece::OedelagtHovedby)
            &&& !(s.square(target.0, target.1).content()->Some_0.1 is Hovedby) ==> t.square(
                target.0,
                target.1,
            ) == Square::Empty
            &&& !(t.square(target.0, target.1).content() matches Some((_, Piece::Hovedby(_))))
        }),
{
    let target = shot_square(shot, shot.power.squares());
    let sq = s.shot_hit(shot)->Some_0;
    s.lemma_with_square_at(target.0, target.1, sq, target.0, target.1);
}

/// Every step of a catapult move that goes through, not only the last, lands on the
/// board on a capital, town or road of the mover that carries no catapult.
pub proof fn law_move_path_on_own_pieces(s: GameState, m: KartopultMove)
    requires
        s.move_result(m) is Some,
    ensures
        m.moves@.len() > 0,
        forall|j: int|
            1 <= j <= m.moves@.len() ==> {
                let pos = #[trigger] path_pos(m.x as int, m.y as int, m.moves@, j);
                &&& in_bounds(pos.0, pos.1)
                &&& {
                    ||| s.square(pos.0, pos.1).content() == Some(
                        (s.current_player_number, Piece::Hovedby(None)),
                    )
                    ||| s.square(pos.0, pos.1).content() == Some(
                        (s.current_player_number, Piece::By(None)),
                    )
                    ||| s.square(pos.0, pos.1).content() == Some(
                        (s.current_player_number, Piece::Vej(None)),
                    )
                }
            },
{
    assert forall|j: int| 1 <= j <= m.moves@.len() implies {
        let pos = #[trigger] path_pos(m.x as int, m.y as int, m.moves@, j);
        &&& in_bounds(pos.0, pos.1)
        &&& {
            ||| s.square(pos.0, pos.1).content() == Some((s.current_player_number, Piece::Hovedby(None)))
            ||| s.square(pos.0, pos.1).content() == Some((s.current_player_number, Piece::By(None)))
            ||| s.square(pos.0, pos.1).content() == Some((s.current_player_number, Piece::Vej(None)))
        }
    } by {
        let pos = path_pos(m.x as int, m.y as int, m.moves@, j);
        assert(s.square(pos.0, pos.1).friendly_piece(s.current_player_number) is Some);
    }
}

/// The harvest comes first in a turn and can be spent in it: the actions of a turn are
/// exactly the single actions carried out, in order, on the state whose current player
/// holds their potatoes plus the harvest, and the turn goes through exactly when they
/// all do; the players and board it leaves are theirs, with the dead removed.
pub proof fn law_round_harvest_first(s: GameState, round: Round)
    ensures
        ({
            let h = s.with_current(
                Player {
                    potato_count: (s.current().potato_count + s.harvest()) as usize,
                    ..s.current()
                },
            );
            let acted = match builds_result(h, round.builds@) {
                Some(s1) => match moves_result(s1, round.kartopult_moves@) {
                    Some(s2) => shots_result(s2, round.kartopult_shots@),
                    None => None,
                },
                None => None,
            };
            &&& (s.round_result(round) is Some <==> acted is Some)
            &&& acted is Some ==> s.round_result(round)->Some_0.board == acted->Some_0.board
            &&& acted is Some ==> s.round_result(round)->Some_0.players == acted->Some_0.without_dead().players
        }),
{
}

} // verus!
