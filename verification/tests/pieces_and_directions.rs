use kc_logic::direction::{
    Direction, DirectionDiagonal, DirectionRet, ALL_DIRECTION_DIAGONAL, ALL_DIRECTION_RET,
};
use kc_logic::pieces::{
    BuildablePiece, Kartopult, Piece, PieceCounts, PlayerNumber, Square,
};

#[test]
fn straight_vectors() {
    assert_eq!(DirectionRet::Up.into_vector(), (0, 1));
    assert_eq!(DirectionRet::Right.into_vector(), (1, 0));
    assert_eq!(DirectionRet::Down.into_vector(), (0, -1));
    assert_eq!(DirectionRet::Left.into_vector(), (-1, 0));
}

#[test]
fn diagonal_vectors() {
    assert_eq!(DirectionDiagonal::UpLeft.into_vector(), (-1, 1));
    assert_eq!(DirectionDiagonal::UpRight.into_vector(), (1, 1));
    assert_eq!(DirectionDiagonal::DownRight.into_vector(), (-1, 1));
    assert_eq!(DirectionDiagonal::DownLeft.into_vector(), (-1, -1));
}

#[test]
fn direction_vectors_follow_their_kind() {
    assert_eq!(Direction::Ret(DirectionRet::Left).into_vector(), (-1, 0));
    assert_eq!(Direction::Diagonal(DirectionDiagonal::UpRight).into_vector(), (1, 1));
    for d in ALL_DIRECTION_RET {
        let (dx, dy) = d.into_vector();
        assert_eq!(dx.abs() + dy.abs(), 1);
    }
    for d in ALL_DIRECTION_DIAGONAL {
        let (dx, dy) = d.into_vector();
        assert_eq!((dx.abs(), dy.abs()), (1, 1));
    }
}

#[test]
fn seat_numbers_round_trip() {
    for i in 0..4 {
        assert_eq!(PlayerNumber::from_index(i).index(), i);
    }
    assert_eq!(PlayerNumber::from_index(2), PlayerNumber::PlayerThree);
}

#[test]
fn square_from_player_number() {
    let sq = Square::from_player_number(PlayerNumber::PlayerTwo, Piece::Mur);
    assert_eq!(sq, Square::PlayerTwo(Piece::Mur));
    assert_eq!(sq.map_piece(|p, o| (*p, o)), Some((Piece::Mur, PlayerNumber::PlayerTwo)));
    assert_eq!(Square::Empty.map_piece(|p, o| (*p, o)), None);
}

#[test]
fn kartopult_friendly_and_armed_squares() {
    let one = PlayerNumber::PlayerOne;
    let two = PlayerNumber::PlayerTwo;
    let free_road = Square::PlayerOne(Piece::Vej(None));
    let armed_town = Square::PlayerOne(Piece::By(Some(Kartopult::Ret)));
    assert_eq!(free_road.is_kartopult_friendly(one), Some(Piece::Vej(None)));
    assert_eq!(free_road.is_kartopult_friendly(two), None);
    assert_eq!(free_road.has_kartopult(one), None);
    assert_eq!(armed_town.has_kartopult(one), Some(Piece::By(Some(Kartopult::Ret))));
    assert_eq!(armed_town.is_kartopult_friendly(one), None);
    assert_eq!(Square::PlayerOne(Piece::Mur).is_kartopult_friendly(one), None);
    assert_eq!(Square::Empty.has_kartopult(one), None);
}

#[test]
fn place_then_remove_kartopult() {
    for p in [Piece::Hovedby(None), Piece::By(None), Piece::Vej(None)] {
        let placed = p.place_kartopult(Kartopult::Diagonal).unwrap();
        assert_eq!(placed.remove_kartopult(), Some(p));
        assert_eq!(placed.place_kartopult(Kartopult::Ret), None);
    }
    assert_eq!(Piece::Mur.place_kartopult(Kartopult::Ret), None);
    assert_eq!(Piece::OedelagtHovedby.place_kartopult(Kartopult::Ret), None);
    assert_eq!(Piece::Vej(None).remove_kartopult(), None);
}

#[test]
fn piece_counts_default_and_spending() {
    let mut counts = PieceCounts::default();
    assert_eq!(
        counts,
        PieceCounts { by: 5, kartopult_ret: 5, kartopult_diagonal: 5, vej: 40, mur: 10 }
    );
    assert!(counts.can_build(BuildablePiece::By));
    counts.build_piece_unchecked(BuildablePiece::Kartopult(Kartopult::Diagonal));
    assert_eq!(counts.kartopult_diagonal, 4);
    assert_eq!(counts.kartopult_ret, 5);
    counts.mur = 0;
    assert!(!counts.can_build(BuildablePiece::Mur));
    assert!(counts.can_build(BuildablePiece::Vej));
}

#[test]
fn buildable_piece_costs() {
    assert_eq!(BuildablePiece::By.cost(), 4);
    assert_eq!(BuildablePiece::Vej.cost(), 1);
    assert_eq!(BuildablePiece::Mur.cost(), 1);
    assert_eq!(BuildablePiece::Kartopult(Kartopult::Ret).cost(), 3);
    assert_eq!(BuildablePiece::By.into_piece(), Piece::By(None));
    assert_eq!(BuildablePiece::Vej.into_piece(), Piece::Vej(None));
    assert_eq!(BuildablePiece::Mur.into_piece(), Piece::Mur);
}
