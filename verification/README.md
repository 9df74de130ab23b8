# kc_logic

The rules of KC, a turn-based board game for two to four players on a 20 by 20
board. Players harvest potatoes from their capitals (`Hovedby`) and the towns
(`By`) their roads (`Vej`) join to them, spend them on towns, roads, walls (`Mur`)
and potato catapults (`Kartopult`), move catapults along their roads, and fire
them at other players' pieces. A player whose last capital is ruined leaves the
game.

The library in `src/` is written in Verus, and every function in it is proved
against its contract:

- `pieces`, `direction`, `actions`: the pieces, squares, directions and the
  actions of a turn.
- `game`: the game state, the turn order, neighbours and the capitals of each
  player.
- `production`: the harvest, computed by a breadth-first walk from a player's
  capitals; since the neighbour lookup answers `None` for every square on the
  board, the walk counts the capitals.
- `turn`: building, moving and firing catapults; each either changes the state
  exactly as its specification says or refuses and changes nothing. The bounds
  check of building refuses every square on the board, so no building is ever
  put up.
- `round`: a whole turn, from harvest to passing the turn on.
- `laws`: properties of the rules proved once for all inputs.
- `lobby`: the decisions of the server's lobby.
- `scan`: counting the cells of the board that satisfy a predicate.

`app/` holds the TCP server that gathers players and spectators in a lobby.
