use vstd::prelude::*;

verus! {

/// What a client that connects to the server wants to be.
#[derive(Debug, Clone, Copy, PartialEq, Eq, Structural)]
pub enum ConnectionKind {
    /// Takes part in the game.
    Player,
    /// Only watches.
    Spectator,
}

/// Whether the lobby, holding `players` players, takes one more: it refuses only when
/// it already holds more than four.
pub fn lobby_accepts_player(players: usize) -> (r: bool)
    ensures
        r == (players <= 4),
{
    !(players > 4)
}

/// Whether the game can start: two to four players are in the lobby, and every one of
/// them (whose flags are `ready`) has said that they are ready.
pub fn lobby_ready(ready: &Vec<bool>) -> (r: bool)
    ensures
        r == (2 <= ready@.len() <= 4 && forall|i: int| 0 <= i < ready@.len() ==> #[trigger] ready@[i]),
{
    if ready.len() < 2 || ready.len() > 4 {
        return false;
    }
    let mut i: usize = 0;
    while i < ready.len()
        invariant
            0 <= i <= ready@.len(),
            forall|k: int| 0 <= k < i ==> #[trigger] ready@[k],
        decreases ready@.len() - i,
    {
        if !ready[i] {
            return false;
        }
        i = i + 1;
    }
    true
}

/// What the first line a client sends, `line`, asks for: exactly `player` or exactly
/// `spectator`; anything else is refused.
pub fn connection_kind(line: &str) -> (r: Option<ConnectionKind>)
    ensures
        r == (if line@ == "player"@ {
            Some(ConnectionKind::Player)
        } else if line@ == "spectator"@ {
            Some(ConnectionKind::Spectator)
        } else {
            None
        }),
{
    let given = line.to_owned();
    if given == "player".to_owned() {
        Some(ConnectionKind::Player)
    } else if given == "spectator".to_owned() {
        Some(ConnectionKind::Spectator)
    } else {
        None
    }
}

} // verus!
