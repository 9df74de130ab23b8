use kc_logic::lobby::{connection_kind, lobby_accepts_player, lobby_ready, ConnectionKind};

#[test]
fn lobby_takes_players_until_it_holds_more_than_four() {
    assert!(lobby_accepts_player(0));
    assert!(lobby_accepts_player(4));
    assert!(!lobby_accepts_player(5));
}

#[test]
fn lobby_starts_with_two_to_four_ready_players() {
    assert!(!lobby_ready(&vec![true]));
    assert!(lobby_ready(&vec![true, true]));
    assert!(!lobby_ready(&vec![true, false, true]));
    assert!(lobby_ready(&vec![true, true, true, true]));
    assert!(!lobby_ready(&vec![true, true, true, true, true]));
    assert!(!lobby_ready(&vec![]));
}

#[test]
fn connection_kinds() {
    assert_eq!(connection_kind("player"), Some(ConnectionKind::Player));
    assert_eq!(connection_kind("spectator"), Some(ConnectionKind::Spectator));
    assert_eq!(connection_kind("player\n"), None);
    assert_eq!(connection_kind("referee"), None);
}
