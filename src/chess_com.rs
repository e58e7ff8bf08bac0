//! Games as the chess.com match-history service describes them, turned into
//! stored records.
use vstd::prelude::*;
use crate::analysis::{self, records_of_game, replay_game, replay_moves};
use crate::db;
use crate::dumbchess::{self, Square};

verus! {

pub struct GameResponse {
    pub game: Game,
    pub players: Players,
}

pub struct Game {
    pub id: u64,
    pub end_time: i64,
    pub move_list: String,
}

/// The two players, in the order the service lists them; either may be white.
pub struct Players {
    pub top: Player,
    pub bottom: Player,
}

pub struct Player {
    pub id: u64,
    pub username: String,
    pub color: String,
    pub rating: i32,
}

/// The decimal digit for `d` in `0..10`.
pub open spec fn digit(d: nat) -> char {
    if d == 0 {
        '0'
    } else if d == 1 {
        '1'
    } else if d == 2 {
        '2'
    } else if d == 3 {
        '3'
    } else if d == 4 {
        '4'
    } else if d == 5 {
        '5'
    } else if d == 6 {
        '6'
    } else if d == 7 {
        '7'
    } else if d == 8 {
        '8'
    } else {
        '9'
    }
}

/// The decimal numeral of `n`, without sign or leading zeros.
pub open spec fn decimal(n: nat) -> Seq<char>
    decreases n,
{
    if n < 10 {
        seq![digit(n)]
    } else {
        decimal(n / 10).push(digit(n % 10))
    }
}

/// Relies on `ToString` for `u64`, which writes the number in decimal through
/// its `Display`.
#[verifier::external_body]
pub(crate) fn u64_to_string(n: u64) -> (r: String)
    ensures
        r@ == decimal(n as nat),
{
    n.to_string()
}

/// How a replay failure is stored: a move list that cannot be read fails the
/// game, a ply the board cannot apply fails that move.
pub open spec fn db_error(e: analysis::Error) -> db::Error {
    match e {
        analysis::Error::PieceNotFound(c) => match Square::of_code(c) {
            Some(s) => db::Error::MoveTranslation { source: dumbchess::Error::PieceNotFound(s) },
            None => db::Error::GameTranslation,
        },
        analysis::Error::EnPassantPieceNotFound(c) => match Square::of_code(c) {
            Some(s) => db::Error::MoveTranslation { source: dumbchess::Error::EnPassantPieceNotFound(s) },
            None => db::Error::GameTranslation,
        },
        _ => db::Error::GameTranslation,
    }
}

fn db_error_exec(e: analysis::Error) -> (r: db::Error)
    ensures
        r == db_error(e),
{
    match e {
        analysis::Error::PieceNotFound(c) => match Square::from_code(c) {
            Some(s) => db::Error::MoveTranslation { source: dumbchess::Error::PieceNotFound(s) },
            None => db::Error::GameTranslation,
        },
        analysis::Error::EnPassantPieceNotFound(c) => match Square::from_code(c) {
            Some(s) => db::Error::MoveTranslation { source: dumbchess::Error::EnPassantPieceNotFound(s) },
            None => db::Error::GameTranslation,
        },
        _ => db::Error::GameTranslation,
    }
}

/// Whether `g` stores the players `white` and `black` of `game`, under the
/// identifier `g.id`.
pub open spec fn game_record(g: db::Game, game: &Game, white: &Player, black: &Player) -> bool {
    &&& g.source@ == "chess.com"@
    &&& g.source_id@ == decimal(game.id as nat)
    &&& g.end_time == game.end_time
    &&& g.white_player_id@ == decimal(white.id as nat)
    &&& g.white_player_name@ == white.username@
    &&& g.white_player_rating == white.rating
    &&& g.black_player_id@ == decimal(black.id as nat)
    &&& g.black_player_name@ == black.username@
    &&& g.black_player_rating == black.rating
}

impl GameResponse {
    /// The game's metadata, with a fresh identifier. The top player's color tells
    /// which player is white; a color other than `white` or `black` fails.
    pub fn record_game(&self) -> (r: Result<db::Game, db::Error>)
        ensures
            self.players.top.color@ == "white"@ ==> (r matches Ok(g) && g.id@.len() == 36 && game_record(
                g,
                &self.game,
                &self.players.top,
                &self.players.bottom,
            )),
            self.players.top.color@ == "black"@ ==> (r matches Ok(g) && g.id@.len() == 36 && game_record(
                g,
                &self.game,
                &self.players.bottom,
                &self.players.top,
            )),
            self.players.top.color@ != "white"@ && self.players.top.color@ != "black"@ ==> r
                == Err::<db::Game, db::Error>(db::Error::GameTranslation),
    {
        self.record_game_with_id(db::new_game_id())
    }

    /// The game's metadata under the identifier `id`. The top player's color
    /// tells which player is white; a color other than `white` or `black` fails.
    pub fn record_game_with_id(&self, id: String) -> (r: Result<db::Game, db::Error>)
        ensures
            self.players.top.color@ == "white"@ ==> (r matches Ok(g) && g.id@ == id@ && game_record(
                g,
                &self.game,
                &self.players.top,
                &self.players.bottom,
            )),
            self.players.top.color@ == "black"@ ==> (r matches Ok(g) && g.id@ == id@ && game_record(
                g,
                &self.game,
                &self.players.bottom,
                &self.players.top,
            )),
            self.players.top.color@ != "white"@ && self.players.top.color@ != "black"@ ==> r
                == Err::<db::Game, db::Error>(db::Error::GameTranslation),
    {
        proof {
            reveal_strlit("white");
            reveal_strlit("black");
            assert("white"@[0] != "black"@[0]);
            assert("white"@ != "black"@);
        }
        let (white, black) = if self.players.top.color == String::from_str("white") {
            (&self.players.top, &self.players.bottom)
        } else if self.players.top.color == String::from_str("black") {
            (&self.players.bottom, &self.players.top)
        } else {
            return Err(db::Error::GameTranslation);
        };
        Ok(db::Game {
            id,
            source: String::from_str("chess.com"),
            source_id: u64_to_string(self.game.id),
            end_time: self.game.end_time,
            white_player_id: u64_to_string(white.id),
            white_player_name: white.username.clone(),
            white_player_rating: white.rating,
            black_player_id: u64_to_string(black.id),
            black_player_name: black.username.clone(),
            black_player_rating: black.rating,
        })
    }

    /// The record of every ply of the game. A move list too long to number its
    /// plies with `i32` fails the game.
    pub fn record_moves(&self) -> (r: Result<Vec<db::Move>, db::Error>)
        ensures
            self.game.move_list@.len() > 2 * i32::MAX ==> r == Err::<Vec<db::Move>, db::Error>(
                db::Error::GameTranslation,
            ),
            self.game.move_list@.len() <= 2 * i32::MAX ==> match replay_game(self.game.move_list@) {
                Err(e) => r == Err::<Vec<db::Move>, db::Error>(db_error(e)),
                Ok(_) => r matches Ok(v) && records_of_game(self.game.move_list@, v@),
            },
    {
        let moves = self.game.move_list.as_str();
        if moves.unicode_len() > 2 * (i32::MAX as usize) {
            return Err(db::Error::GameTranslation);
        }
        match replay_moves(moves) {
            Ok(v) => Ok(v),
            Err(e) => Err(db_error_exec(e)),
        }
    }
}

impl db::Recordable for GameResponse {
    /// The game's metadata, as `record_game` gives it.
    fn game(&self) -> (r: Result<db::Game, db::Error>)
        ensures
            self.players.top.color@ == "white"@ ==> (r matches Ok(g) && g.id@.len() == 36 && game_record(
                g,
                &self.game,
                &self.players.top,
                &self.players.bottom,
            )),
            self.players.top.color@ == "black"@ ==> (r matches Ok(g) && g.id@.len() == 36 && game_record(
                g,
                &self.game,
                &self.players.bottom,
                &self.players.top,
            )),
            self.players.top.color@ != "white"@ && self.players.top.color@ != "black"@ ==> r
                == Err::<db::Game, db::Error>(db::Error::GameTranslation),
    {
        self.record_game()
    }

    /// The record of every ply, as `record_moves` gives it.
    fn moves(&self) -> (r: Result<Vec<db::Move>, db::Error>)
        ensures
            self.game.move_list@.len() > 2 * i32::MAX ==> r == Err::<Vec<db::Move>, db::Error>(
                db::Error::GameTranslation,
            ),
            self.game.move_list@.len() <= 2 * i32::MAX ==> match replay_game(self.game.move_list@) {
                Err(e) => r == Err::<Vec<db::Move>, db::Error>(db_error(e)),
                Ok(_) => r matches Ok(v) && records_of_game(self.game.move_list@, v@),
            },
    {
        self.record_moves()
    }
}

} // verus!
