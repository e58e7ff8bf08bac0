//! The shapes of the match-history service's answers that the library reads.
use vstd::prelude::*;

verus! {

#[derive(Clone, Debug)]
pub struct GameResponse {
    pub game: Game,
}

/// One game: its moves as an encoded move list.
#[derive(Clone, Debug)]
pub struct Game {
    pub move_list: String,
}

#[derive(Clone, Copy, Debug, PartialEq, Eq, Structural)]
pub struct GameSummary {
    pub id: u64,
}

#[derive(Clone, Copy, Debug, PartialEq, Eq, Structural)]
pub struct PlayerResponse {
    pub player_id: u64,
}

} // verus!
