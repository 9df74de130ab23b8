//! Game logic of KC: a turn-based board game for up to four players
//! who build towns and roads, and move and fire potato catapults.

pub mod direction;
pub mod pieces;
pub mod scan;
pub mod actions;
pub mod game;
pub mod production;
pub mod turn;
pub mod round;
pub mod laws;
pub mod lobby;
