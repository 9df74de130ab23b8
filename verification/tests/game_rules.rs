use kc_logic::actions::{Building, KartopultMove, KartopultPower, KartopultShot, Round};
use kc_logic::direction::{Direction, DirectionDiagonal, DirectionRet};
use kc_logic::game::GameState;
use kc_logic::pieces::{
    BuildablePiece, Color, Kartopult, Piece, PieceCounts, Player, PlayerNumber, Square,
};

fn player(potatoes: usize) -> Player {
    Player {
        preferred_color: Color { red: 1, green: 2, blue: 3 },
        potato_count: potatoes,
        piece_counts: PieceCounts::default(),
    }
}

fn two_player_game(potatoes: usize) -> GameState {
    let mut board = [[Square::Empty; 20]; 20];
    board[2][2] = Square::PlayerOne(Piece::Hovedby(None));
    board[15][15] = Square::PlayerTwo(Piece::Hovedby(None));
    GameState {
        current_player_number: PlayerNumber::PlayerOne,
        players: [Some(player(potatoes)), Some(player(potatoes)), None, None],
        board,
    }
}

#[test]
fn current_player_is_read_and_changed() {
    let mut g = two_player_game(7);
    assert_eq!(g.current_player().potato_count, 7);
    g.current_player_mut().potato_count = 9;
    assert_eq!(g.players[0].unwrap().potato_count, 9);
    assert_eq!(g.players[1].unwrap().potato_count, 7);
}

#[test]
fn next_player_goes_round_the_table() {
    let mut g = two_player_game(0);
    assert_eq!(g.next_player(), PlayerNumber::PlayerTwo);
    g.current_player_number = PlayerNumber::PlayerTwo;
    assert_eq!(g.next_player(), PlayerNumber::PlayerOne);
    g.players = [None, Some(player(0)), None, Some(player(0))];
    assert_eq!(g.next_player(), PlayerNumber::PlayerFour);
    g.current_player_number = PlayerNumber::PlayerFour;
    assert_eq!(g.next_player(), PlayerNumber::PlayerTwo);
    g.players = [None, None, None, Some(player(0))];
    assert_eq!(g.next_player(), PlayerNumber::PlayerFour);
}

#[test]
fn bounds_checks() {
    let g = two_player_game(0);
    assert!(g.inbound_usize(0, 19));
    assert!(!g.inbound_usize(20, 0));
    assert!(g.inbound_isize(19, 0));
    assert!(!g.inbound_isize(-1, 3));
    assert!(!g.inbound_isize(3, 20));
}

#[test]
fn neighbors_on_the_board_are_none() {
    let g = two_player_game(0);
    assert_eq!(g.get_neighbors(2, 1), [None, None, None, None]);
    assert_eq!(g.get_neighbors(1, 1), [None, None, None, None]);
    assert_eq!(g.get_neighbors(18, 18), [None, None, None, None]);
}

#[test]
fn neighbor_of_kind_is_never_found() {
    let g = two_player_game(0);
    let own_capital = |p: &Piece, o: PlayerNumber| {
        o == PlayerNumber::PlayerOne && matches!(p, Piece::Hovedby(_))
    };
    assert!(!g.has_neighbor_of_kind(2, 3, own_capital));
    assert!(!g.has_neighbor_of_kind(3, 3, own_capital));
    assert!(!g.has_neighbor_of_kind(15, 16, |_: &Piece, _: PlayerNumber| true));
}

#[test]
fn capitals_listed_per_player_in_scan_order() {
    let mut g = two_player_game(0);
    g.board[1][7] = Square::PlayerOne(Piece::Hovedby(Some(Kartopult::Ret)));
    g.board[1][3] = Square::PlayerOne(Piece::OedelagtHovedby);
    let h = g.get_hovedbyer();
    assert_eq!(h[0], [Some((1, 7)), Some((2, 2)), None, None]);
    assert_eq!(h[1], [Some((15, 15)), None, None, None]);
    assert_eq!(h[2], [None, None, None, None]);
    assert_eq!(h[3], [None, None, None, None]);
}

#[test]
fn harvest_counts_the_capitals() {
    let mut g = two_player_game(0);
    g.board[3][2] = Square::PlayerOne(Piece::Vej(None));
    g.board[2][3] = Square::PlayerOne(Piece::Vej(None));
    g.board[3][3] = Square::PlayerOne(Piece::By(None));
    g.board[4][2] = Square::PlayerTwo(Piece::By(None));
    assert_eq!(g.potatos_produced(), 1);
    g.board[10][10] = Square::PlayerOne(Piece::Hovedby(Some(Kartopult::Ret)));
    assert_eq!(g.potatos_produced(), 2);
}


#[test]
fn harvest_without_capital_is_zero() {
    let mut g = two_player_game(0);
    g.board[2][2] = Square::PlayerOne(Piece::OedelagtHovedby);
    g.board[2][3] = Square::PlayerOne(Piece::Vej(None));
    g.board[2][4] = Square::PlayerOne(Piece::By(None));
    assert_eq!(g.potatos_produced(), 0);
}

#[test]
fn harvest_for_the_current_player_only() {
    let mut g = two_player_game(0);
    g.board[15][16] = Square::PlayerTwo(Piece::Vej(None));
    g.board[5][5] = Square::PlayerTwo(Piece::Hovedby(None));
    assert_eq!(g.potatos_produced(), 1);
    g.current_player_number = PlayerNumber::PlayerTwo;
    assert_eq!(g.potatos_produced(), 2);
}

#[test]
fn build_on_the_board_is_refused() {
    let g0 = two_player_game(10);
    let mut g = g0.clone();
    assert_eq!(g.build(Building { x: 2, y: 3, piece: BuildablePiece::Vej }), Err(()));
    assert_eq!(g.build(Building { x: 2, y: 4, piece: BuildablePiece::By }), Err(()));
    assert_eq!(g.build(Building { x: 0, y: 0, piece: BuildablePiece::Mur }), Err(()));
    let k = Building { x: 2, y: 2, piece: BuildablePiece::Kartopult(Kartopult::Ret) };
    assert_eq!(g.build(k), Err(()));
    assert_eq!(g, g0);
}


#[test]
fn build_refused_without_potatoes_or_pieces() {
    let mut g = two_player_game(0);
    assert_eq!(g.build(Building { x: 2, y: 3, piece: BuildablePiece::Vej }), Err(()));
    // a position off the board is fine when the price is not met
    assert_eq!(g.build(Building { x: 40, y: 3, piece: BuildablePiece::Vej }), Err(()));
    let mut g = two_player_game(10);
    g.current_player_mut().piece_counts.vej = 0;
    assert_eq!(g.build(Building { x: 40, y: 3, piece: BuildablePiece::Vej }), Err(()));
    assert_eq!(g.current_player().potato_count, 10);
    assert_eq!(g.current_player().piece_counts.vej, 0);
}



fn armed_game() -> GameState {
    let mut g = two_player_game(10);
    g.board[2][2] = Square::PlayerOne(Piece::Hovedby(Some(Kartopult::Ret)));
    g.board[2][3] = Square::PlayerOne(Piece::Vej(None));
    g.board[2][4] = Square::PlayerOne(Piece::Vej(None));
    g.board[3][4] = Square::PlayerOne(Piece::By(None));
    g
}

#[test]
fn move_kartopult_along_roads() {
    let mut g = armed_game();
    let m = KartopultMove {
        x: 2,
        y: 2,
        moves: vec![DirectionRet::Up, DirectionRet::Up, DirectionRet::Right],
    };
    assert_eq!(g.move_kartopult(m), Ok(()));
    assert_eq!(g.board[2][2], Square::PlayerOne(Piece::Hovedby(None)));
    assert_eq!(g.board[3][4], Square::PlayerOne(Piece::By(Some(Kartopult::Ret))));
    assert_eq!(g.board[2][3], Square::PlayerOne(Piece::Vej(None)));
    assert_eq!(g.current_player().potato_count, 7);
}

#[test]
fn move_kartopult_refusals() {
    let g0 = armed_game();
    let mut g = g0.clone();
    // off the road
    let m = KartopultMove { x: 2, y: 2, moves: vec![DirectionRet::Right] };
    assert_eq!(g.move_kartopult(m), Err(()));
    // no catapult at the start
    let m = KartopultMove { x: 2, y: 3, moves: vec![DirectionRet::Up] };
    assert_eq!(g.move_kartopult(m), Err(()));
    // start off the board
    let m = KartopultMove { x: 25, y: 3, moves: vec![DirectionRet::Up] };
    assert_eq!(g.move_kartopult(m), Err(()));
    // back onto the square it started from
    let m = KartopultMove { x: 2, y: 2, moves: vec![DirectionRet::Up, DirectionRet::Down] };
    assert_eq!(g.move_kartopult(m), Err(()));
    assert_eq!(g, g0);
    // too far for the potatoes
    g.current_player_mut().potato_count = 1;
    let m = KartopultMove { x: 2, y: 2, moves: vec![DirectionRet::Up, DirectionRet::Up] };
    assert_eq!(g.move_kartopult(m), Err(()));
    // off the edge of the board
    let mut g = two_player_game(10);
    g.board[0][0] = Square::PlayerOne(Piece::Vej(Some(Kartopult::Ret)));
    let m = KartopultMove { x: 0, y: 0, moves: vec![DirectionRet::Left] };
    assert_eq!(g.move_kartopult(m), Err(()));
}

fn shooting_game() -> GameState {
    let mut g = two_player_game(10);
    g.board[10][10] = Square::PlayerOne(Piece::Vej(Some(Kartopult::Ret)));
    g.board[12][12] = Square::PlayerOne(Piece::Vej(Some(Kartopult::Diagonal)));
    g.board[10][13] = Square::PlayerTwo(Piece::Hovedby(None));
    g.board[13][10] = Square::PlayerTwo(Piece::By(Some(Kartopult::Ret)));
    g
}

fn shot(x: usize, y: usize, direction: Direction, power: KartopultPower) -> KartopultShot {
    KartopultShot { x, y, direction, power }
}

#[test]
fn shooting_ruins_a_capital() {
    let mut g = shooting_game();
    let s = shot(10, 10, Direction::Ret(DirectionRet::Up), KartopultPower::Three);
    assert_eq!(g.shoot_kartopult(s), Ok(()));
    assert_eq!(g.board[10][13], Square::PlayerTwo(Piece::OedelagtHovedby));
    assert_eq!(g.current_player().potato_count, 7);
    // a ruined capital cannot be shot again
    assert_eq!(g.shoot_kartopult(s), Err(()));
}

#[test]
fn shooting_clears_a_town() {
    let mut g = shooting_game();
    let s = shot(10, 10, Direction::Ret(DirectionRet::Right), KartopultPower::Three);
    assert_eq!(g.shoot_kartopult(s), Ok(()));
    assert_eq!(g.board[13][10], Square::Empty);
    assert_eq!(g.board[10][10], Square::PlayerOne(Piece::Vej(Some(Kartopult::Ret))));
}

#[test]
fn shooting_refusals() {
    let g0 = shooting_game();
    let mut g = g0.clone();
    // a straight catapult cannot fire diagonally
    let s = shot(10, 10, Direction::Diagonal(DirectionDiagonal::UpRight), KartopultPower::One);
    assert_eq!(g.shoot_kartopult(s), Err(()));
    // nothing to hit
    let s = shot(10, 10, Direction::Ret(DirectionRet::Up), KartopultPower::Two);
    assert_eq!(g.shoot_kartopult(s), Err(()));
    // no catapult there
    let s = shot(9, 9, Direction::Ret(DirectionRet::Up), KartopultPower::One);
    assert_eq!(g.shoot_kartopult(s), Err(()));
    // own piece
    let s = shot(12, 12, Direction::Diagonal(DirectionDiagonal::DownLeft), KartopultPower::Two);
    assert_eq!(g.shoot_kartopult(s), Err(()));
    // a wall in the way
    g.board[10][11] = Square::PlayerTwo(Piece::Mur);
    let before = g.clone();
    let s = shot(10, 10, Direction::Ret(DirectionRet::Up), KartopultPower::Three);
    assert_eq!(g.shoot_kartopult(s), Err(()));
    assert_eq!(g, before);
    // but a wall itself can be shot down
    let s = shot(10, 10, Direction::Ret(DirectionRet::Up), KartopultPower::One);
    assert_eq!(g.shoot_kartopult(s), Ok(()));
    assert_eq!(g.board[10][11], Square::Empty);
    // off the board
    let mut g = g0.clone();
    g.board[0][1] = Square::PlayerOne(Piece::Vej(Some(Kartopult::Ret)));
    let s = shot(0, 1, Direction::Ret(DirectionRet::Left), KartopultPower::One);
    assert_eq!(g.shoot_kartopult(s), Err(()));
    // too expensive
    let mut g = g0.clone();
    g.current_player_mut().potato_count = 2;
    let s = shot(10, 10, Direction::Ret(DirectionRet::Up), KartopultPower::Three);
    assert_eq!(g.shoot_kartopult(s), Err(()));
}

#[test]
fn diagonal_down_right_goes_up_left() {
    let mut g = shooting_game();
    g.board[11][13] = Square::PlayerTwo(Piece::Vej(None));
    let s = shot(12, 12, Direction::Diagonal(DirectionDiagonal::DownRight), KartopultPower::One);
    assert_eq!(g.shoot_kartopult(s), Ok(()));
    assert_eq!(g.board[11][13], Square::Empty);
}

fn empty_round() -> Round {
    Round { builds: vec![], kartopult_moves: vec![], kartopult_shots: vec![] }
}

#[test]
fn empty_round_harvests_and_passes_the_turn() {
    let mut g = two_player_game(0);
    g.board[2][3] = Square::PlayerOne(Piece::Vej(None));
    g.board[2][4] = Square::PlayerOne(Piece::By(None));
    let next = g.apply_round(empty_round()).unwrap();
    assert_eq!(next.current_player_number, PlayerNumber::PlayerTwo);
    assert_eq!(next.players[0].unwrap().potato_count, 1);
    assert_eq!(next.players[1].unwrap().potato_count, 0);
    assert_eq!(next.board, g.board);
    // the state the turn was played on is untouched
    assert_eq!(g.players[0].unwrap().potato_count, 0);
}

#[test]
fn round_with_actions() {
    let mut g = two_player_game(5);
    g.board[2][2] = Square::PlayerOne(Piece::Hovedby(Some(Kartopult::Ret)));
    g.board[2][3] = Square::PlayerOne(Piece::Vej(None));
    g.board[2][6] = Square::PlayerTwo(Piece::Vej(None));
    let round = Round {
        builds: vec![],
        kartopult_moves: vec![KartopultMove { x: 2, y: 2, moves: vec![DirectionRet::Up] }],
        kartopult_shots: vec![shot(2, 3, Direction::Ret(DirectionRet::Up), KartopultPower::Three)],
    };
    let next = g.apply_round(round).unwrap();
    // 5 + 1 harvested - 1 step - 3 for the shot
    assert_eq!(next.players[0].unwrap().potato_count, 2);
    assert_eq!(next.board[2][3], Square::PlayerOne(Piece::Vej(Some(Kartopult::Ret))));
    assert_eq!(next.board[2][2], Square::PlayerOne(Piece::Hovedby(None)));
    assert_eq!(next.board[2][6], Square::Empty);
    assert_eq!(next.current_player_number, PlayerNumber::PlayerTwo);
    // a shot at one's own road refuses the whole turn
    let round = Round {
        builds: vec![],
        kartopult_moves: vec![],
        kartopult_shots: vec![shot(2, 2, Direction::Ret(DirectionRet::Up), KartopultPower::One)],
    };
    assert_eq!(g.apply_round(round), Err(()));
}

#[test]
fn round_refused_when_an_action_is() {
    let g = two_player_game(5);
    let round = Round {
        builds: vec![
            Building { x: 2, y: 3, piece: BuildablePiece::Vej },
            Building { x: 9, y: 9, piece: BuildablePiece::Vej },
        ],
        kartopult_moves: vec![],
        kartopult_shots: vec![],
    };
    assert_eq!(g.apply_round(round), Err(()));
}

#[test]
fn player_without_capital_leaves_the_game() {
    let mut g = two_player_game(10);
    g.players[2] = Some(player(0));
    g.board[9][9] = Square::PlayerThree(Piece::OedelagtHovedby);
    g.board[10][10] = Square::PlayerOne(Piece::Vej(Some(Kartopult::Ret)));
    g.board[10][12] = Square::PlayerTwo(Piece::Hovedby(None));
    g.board[15][15] = Square::PlayerTwo(Piece::By(None));
    let round = Round {
        builds: vec![],
        kartopult_moves: vec![],
        kartopult_shots: vec![shot(10, 10, Direction::Ret(DirectionRet::Up), KartopultPower::Two)],
    };
    let next = g.apply_round(round).unwrap();
    assert_eq!(next.board[10][12], Square::PlayerTwo(Piece::OedelagtHovedby));
    assert_eq!(next.players[1], None);
    assert_eq!(next.players[2], None);
    assert!(next.players[0].is_some());
    // everyone else is out: the turn comes back to the shooter
    assert_eq!(next.current_player_number, PlayerNumber::PlayerOne);
}

#[test]
fn a_turn_puts_up_no_capital() {
    let g = armed_game();
    let before = g.get_hovedbyer();
    let round = Round {
        builds: vec![],
        kartopult_moves: vec![KartopultMove { x: 2, y: 2, moves: vec![DirectionRet::Up] }],
        kartopult_shots: vec![],
    };
    let next = g.apply_round(round).unwrap();
    let after = next.get_hovedbyer();
    for seat in 0..4 {
        let count = |h: [Option<(usize, usize)>; 4]| h.iter().filter(|c| c.is_some()).count();
        assert!(count(after[seat]) <= count(before[seat]));
    }
    assert_eq!(after, before);
}

#[test]
fn move_without_steps_is_refused() {
    let g0 = armed_game();
    let mut g = g0.clone();
    let m = KartopultMove { x: 2, y: 2, moves: vec![] };
    assert_eq!(g.move_kartopult(m), Err(()));
    assert_eq!(g, g0);
    let round = Round {
        builds: vec![],
        kartopult_moves: vec![KartopultMove { x: 2, y: 2, moves: vec![] }],
        kartopult_shots: vec![],
    };
    assert_eq!(g0.apply_round(round), Err(()));
}

#[test]
fn shot_from_off_the_board_is_refused() {
    let g0 = shooting_game();
    let mut g = g0.clone();
    let s = shot(30, 10, Direction::Ret(DirectionRet::Up), KartopultPower::One);
    assert_eq!(g.shoot_kartopult(s), Err(()));
    assert_eq!(g, g0);
    let round = Round { builds: vec![], kartopult_moves: vec![], kartopult_shots: vec![s] };
    assert_eq!(g0.apply_round(round), Err(()));
}

#[test]
fn one_more_piece_never_lowers_the_harvest() {
    let mut g = two_player_game(10);
    g.board[2][4] = Square::PlayerOne(Piece::By(None));
    assert_eq!(g.potatos_produced(), 1);
    g.board[2][3] = Square::PlayerOne(Piece::Vej(None));
    assert_eq!(g.potatos_produced(), 1);
    g.board[9][9] = Square::PlayerOne(Piece::Hovedby(None));
    assert_eq!(g.potatos_produced(), 2);
}

#[test]
fn moves_keep_the_number_of_catapults() {
    let count = |g: &GameState, k: Kartopult| {
        let mut n = 0;
        for row in g.board.iter() {
            for sq in row.iter() {
                if let Some(Piece::Hovedby(Some(c)) | Piece::By(Some(c)) | Piece::Vej(Some(c))) =
                    sq.has_kartopult(PlayerNumber::PlayerOne)
                {
                    if c == k {
                        n += 1;
                    }
                }
            }
        }
        n
    };
    let mut g = armed_game();
    let before = (count(&g, Kartopult::Ret), count(&g, Kartopult::Diagonal));
    let m = KartopultMove { x: 2, y: 2, moves: vec![DirectionRet::Up, DirectionRet::Up] };
    assert_eq!(g.move_kartopult(m), Ok(()));
    assert_eq!((count(&g, Kartopult::Ret), count(&g, Kartopult::Diagonal)), before);
    assert_eq!(before, (1, 0));
}
