//! The plain records that a replayed game hands to storage.
use vstd::prelude::*;
use crate::dumbchess::{self, Ply};

verus! {

/// Why a game could not be turned into records.
#[derive(Clone, Copy, Debug, PartialEq, Eq, Hash, Structural)]
pub enum Error {
    /// The game's own data could not be read.
    GameTranslation,
    /// A ply could not be applied to the board.
    MoveTranslation { source: dumbchess::Error },
}

/// The record of one ply.
#[derive(Clone, Debug)]
pub struct Move {
    pub move_num: i32,
    pub color: String,
    pub moved_piece: String,
    pub starting_location: String,
    pub ending_location: String,
    pub captured_piece: String,
    pub capture_score: i32,
}

/// What a move record holds, with its text as characters.
pub ghost struct MoveRecord {
    pub move_num: int,
    pub color: Seq<char>,
    pub moved_piece: Seq<char>,
    pub starting_location: Seq<char>,
    pub ending_location: Seq<char>,
    pub captured_piece: Seq<char>,
    pub capture_score: int,
}

impl View for Move {
    type V = MoveRecord;

    open spec fn view(&self) -> MoveRecord {
        MoveRecord {
            move_num: self.move_num as int,
            color: self.color@,
            moved_piece: self.moved_piece@,
            starting_location: self.starting_location@,
            ending_location: self.ending_location@,
            captured_piece: self.captured_piece@,
            capture_score: self.capture_score as int,
        }
    }
}

impl Move {
    /// A copy of the record.
    pub fn copy(&self) -> (r: Move)
        ensures
            r@ == self@,
    {
        Move {
            move_num: self.move_num,
            color: self.color.clone(),
            moved_piece: self.moved_piece.clone(),
            starting_location: self.starting_location.clone(),
            ending_location: self.ending_location.clone(),
            captured_piece: self.captured_piece.clone(),
            capture_score: self.capture_score,
        }
    }

    /// The record of `ply`, the `n`-th of its game.
    pub fn of_ply(n: i32, ply: &Ply) -> (r: Move)
        requires
            ply.captured matches Some(p) ==> 0 <= p.spec_value() <= 9,
        ensures
            r@ == dumbchess::record_of(n as int, *ply),
    {
        let captured_piece = match &ply.captured {
            Some(p) => p.label(),
            None => String::new(),
        };
        Move {
            move_num: n,
            color: String::from_str(ply.mover.color.name()),
            moved_piece: ply.mover.label(),
            starting_location: ply.start.name(),
            ending_location: ply.end.name(),
            captured_piece,
            capture_score: ply.score(),
        }
    }
}

/// A game's metadata as it is stored.
#[derive(Clone, Debug)]
pub struct Game {
    pub id: String,
    pub source: String,
    pub source_id: String,
    pub end_time: i64,
    pub white_player_id: String,
    pub white_player_name: String,
    pub white_player_rating: i32,
    pub black_player_id: String,
    pub black_player_name: String,
    pub black_player_rating: i32,
}

/// What a game record holds, with its text as characters.
pub ghost struct GameView {
    pub id: Seq<char>,
    pub source: Seq<char>,
    pub source_id: Seq<char>,
    pub end_time: i64,
    pub white_player_id: Seq<char>,
    pub white_player_name: Seq<char>,
    pub white_player_rating: i32,
    pub black_player_id: Seq<char>,
    pub black_player_name: Seq<char>,
    pub black_player_rating: i32,
}

impl View for Game {
    type V = GameView;

    open spec fn view(&self) -> GameView {
        GameView {
            id: self.id@,
            source: self.source@,
            source_id: self.source_id@,
            end_time: self.end_time,
            white_player_id: self.white_player_id@,
            white_player_name: self.white_player_name@,
            white_player_rating: self.white_player_rating,
            black_player_id: self.black_player_id@,
            black_player_name: self.black_player_name@,
            black_player_rating: self.black_player_rating,
        }
    }
}

/// The record of a game not yet described: every text empty, every number 0.
pub open spec fn empty_game() -> GameView {
    GameView {
        id: Seq::empty(),
        source: Seq::empty(),
        source_id: Seq::empty(),
        end_time: 0,
        white_player_id: Seq::empty(),
        white_player_name: Seq::empty(),
        white_player_rating: 0,
        black_player_id: Seq::empty(),
        black_player_name: Seq::empty(),
        black_player_rating: 0,
    }
}

/// Relies on `uuid::Uuid::new_v4` for a random identifier, written through its
/// `Display` in the hyphenated form of 36 characters. It panics only where the
/// system's random source fails.
#[verifier::external_body]
pub(crate) fn new_game_id() -> (r: String)
    ensures
        r@.len() == 36,
{
    uuid::Uuid::new_v4().to_string()
}

/// Copies of the records, in order.
pub fn copy_moves(moves: &Vec<Move>) -> (r: Vec<Move>)
    ensures
        r@.map_values(|m: Move| m@) == moves@.map_values(|m: Move| m@),
{
    let mut r: Vec<Move> = Vec::new();
    let mut i: usize = 0;
    while i < moves.len()
        invariant
            i <= moves@.len(),
            r@.len() == i,
            forall|j: int| 0 <= j < i ==> (#[trigger] r@[j])@ == moves@[j]@,
        decreases moves@.len() - i,
    {
        r.push(moves[i].copy());
        i = i + 1;
    }
    assert(r@.map_values(|m: Move| m@) =~= moves@.map_values(|m: Move| m@));
    r
}

impl Game {
    /// A copy of the record.
    pub fn copy(&self) -> (r: Game)
        ensures
            r@ == self@,
    {
        Game {
            id: self.id.clone(),
            source: self.source.clone(),
            source_id: self.source_id.clone(),
            end_time: self.end_time,
            white_player_id: self.white_player_id.clone(),
            white_player_name: self.white_player_name.clone(),
            white_player_rating: self.white_player_rating,
            black_player_id: self.black_player_id.clone(),
            black_player_name: self.black_player_name.clone(),
            black_player_rating: self.black_player_rating,
        }
    }

    /// A game with every text empty and every number 0.
    pub fn empty() -> (r: Game)
        ensures
            r@ == empty_game(),
    {
        Game {
            id: String::new(),
            source: String::new(),
            source_id: String::new(),
            end_time: 0,
            white_player_id: String::new(),
            white_player_name: String::new(),
            white_player_rating: 0,
            black_player_id: String::new(),
            black_player_name: String::new(),
            black_player_rating: 0,
        }
    }
}

/// A source of one game that can be stored: its metadata and its move records.
pub trait Recordable {
    fn game(&self) -> Result<Game, Error>;

    fn moves(&self) -> Result<Vec<Move>, Error>;
}

} // verus!
