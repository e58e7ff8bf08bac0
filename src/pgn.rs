//! Games read from portable game notation: their header tags, and their moves,
//! once a rules board has turned them into squares, replayed on the scoring board.
use vstd::prelude::*;
use crate::analysis::PieceType;
use crate::db;
use crate::dumbchess::{self, record_of, step, Position, Square};

verus! {

/// What `str::to_lowercase` makes of a text.
pub uninterp spec fn lower_of(s: Seq<char>) -> Seq<char>;

/// Relies on `str::to_lowercase`: the result depends on the characters alone.
#[verifier::external_body]
fn lowercase(s: &str) -> (r: String)
    ensures
        r@ == lower_of(s@),
{
    s.to_lowercase()
}

/// The seconds since the Unix epoch of a date and time read with a chrono
/// format, taken as UTC; `None` where the text does not match the format.
pub uninterp spec fn timestamp_of(s: Seq<char>, format: Seq<char>) -> Option<i64>;

/// Relies on `chrono::NaiveDateTime::parse_from_str`, read as UTC through
/// `and_utc().timestamp()`: the result depends on the two texts alone.
#[verifier::external_body]
fn parse_timestamp(s: &str, format: &str) -> (r: Option<i64>)
    ensures
        r == timestamp_of(s@, format@),
{
    chrono::NaiveDateTime::parse_from_str(s, format).ok().map(|d| d.and_utc().timestamp())
}

/// The value of a decimal digit.
pub open spec fn digit_value(c: char) -> Option<int> {
    if c == '0' {
        Some(0)
    } else if c == '1' {
        Some(1)
    } else if c == '2' {
        Some(2)
    } else if c == '3' {
        Some(3)
    } else if c == '4' {
        Some(4)
    } else if c == '5' {
        Some(5)
    } else if c == '6' {
        Some(6)
    } else if c == '7' {
        Some(7)
    } else if c == '8' {
        Some(8)
    } else if c == '9' {
        Some(9)
    } else {
        None
    }
}

/// The value of a string of decimal digits.
pub open spec fn digits_value(s: Seq<char>) -> int
    decreases s.len(),
{
    if s.len() == 0 {
        0
    } else {
        digits_value(s.drop_last()) * 10 + digit_value(s.last()).unwrap_or(0)
    }
}

/// An `i32` written in decimal: an optional `+` or `-`, then one or more
/// digits, with a value in the range of `i32`.
pub open spec fn parsed_i32(s: Seq<char>) -> Option<i32> {
    let v = if s.len() > 0 && s[0] == '-' {
        -digits_value(unsigned_part(s))
    } else {
        digits_value(unsigned_part(s))
    };
    if unsigned_part(s).len() == 0 || exists|i: int|
        0 <= i < unsigned_part(s).len() && digit_value(#[trigger] unsigned_part(s)[i]) is None {
        None
    } else if i32::MIN <= v <= i32::MAX {
        Some(v as i32)
    } else {
        None
    }
}

/// A text without its leading sign, if it has one.
pub open spec fn unsigned_part(s: Seq<char>) -> Seq<char> {
    if s.len() > 0 && (s[0] == '-' || s[0] == '+') {
        s.drop_first()
    } else {
        s
    }
}

/// Relies on `<i32 as FromStr>::from_str`, which reads an optional sign and
/// decimal digits and fails on anything else or on overflow.
#[verifier::external_body]
fn parse_i32(s: &str) -> (r: Option<i32>)
    ensures
        r == parsed_i32(s@),
{
    s.parse::<i32>().ok()
}

/// The text up to its first space.
pub open spec fn first_word(s: Seq<char>) -> Seq<char>
    decreases s.len(),
{
    if s.len() == 0 || s[0] == ' ' {
        Seq::empty()
    } else {
        seq![s[0]] + first_word(s.drop_first())
    }
}

proof fn lemma_first_word(s: Seq<char>, k: int)
    requires
        0 <= k <= s.len(),
        forall|j: int| 0 <= j < k ==> s[j] != ' ',
        k == s.len() || s[k] == ' ',
    ensures
        first_word(s) == s.take(k),
    decreases k,
{
    if k > 0 {
        lemma_first_word(s.drop_first(), k - 1);
        assert(s.take(k) =~= seq![s[0]] + s.drop_first().take(k - 1));
    } else {
        assert(s.take(k) =~= Seq::<char>::empty());
    }
}

fn first_word_exec(s: &str) -> (r: String)
    ensures
        r@ == first_word(s@),
{
    let n = s.unicode_len();
    let mut k: usize = 0;
    while k < n && s.get_char(k) != ' '
        invariant
            n == s@.len(),
            k <= n,
            forall|j: int| 0 <= j < k ==> s@[j] != ' ',
        decreases n - k,
    {
        k = k + 1;
    }
    proof {
        lemma_first_word(s@, k as int);
    }
    String::from_str(s.substring_char(0, k))
}

/// Whether `p` begins `s`.
pub open spec fn has_prefix(s: Seq<char>, p: Seq<char>) -> bool {
    p.len() <= s.len() && s.take(p.len() as int) == p
}

/// What follows the prefix `p` of `s`, if `p` begins `s`.
fn strip_prefix(s: &str, p: &str) -> (r: Option<String>)
    ensures
        has_prefix(s@, p@) ==> (r matches Some(t) && t@ == s@.skip(p@.len() as int)),
        !has_prefix(s@, p@) ==> r is None,
{
    let n = s.unicode_len();
    let m = p.unicode_len();
    if m <= n && String::from_str(s.substring_char(0, m)) == String::from_str(p) {
        Some(String::from_str(s.substring_char(m, n)))
    } else {
        None
    }
}

/// Whether `p` occurs in `s`.
pub open spec fn occurs_in(p: Seq<char>, s: Seq<char>) -> bool {
    exists|i: int| 0 <= i && i + p.len() <= s.len() && #[trigger] s.subrange(i, i + p.len()) == p
}

fn contains(s: &str, p: &str) -> (r: bool)
    ensures
        r == occurs_in(p@, s@),
{
    let n = s.unicode_len();
    let m = p.unicode_len();
    if m > n {
        return false;
    }
    let pat = String::from_str(p);
    let last = n - m;
    let mut i: usize = 0;
    while i < last
        invariant
            n == s@.len(),
            m == p@.len(),
            last == n - m,
            pat@ == p@,
            i <= last,
            forall|j: int| 0 <= j < i ==> #[trigger] s@.subrange(j, j + m) != p@,
        decreases last - i,
    {
        if String::from_str(s.substring_char(i, i + m)) == pat {
            assert(s@.subrange(i as int, i + p@.len()) == p@);
            return true;
        }
        i = i + 1;
    }
    if String::from_str(s.substring_char(last, n)) == pat {
        assert(s@.subrange(last as int, last + p@.len()) == p@);
        return true;
    }
    assert forall|j: int| 0 <= j && j + p@.len() <= s@.len() implies #[trigger] s@.subrange(j, j + p@.len()) != p@ by {
        if j < last {
        }
    }
    false
}

/// Why a game read from notation could not be recorded.
#[derive(Clone, Copy, Debug, PartialEq, Eq, Hash, Structural)]
pub enum Error {
    /// A rating header is not a number.
    InvalidRating,
    /// The date and time headers do not give a date and time.
    InvalidDateTime,
    /// The game has more plies than a record can number.
    MoveLimit,
    /// The scoring board could not apply a move.
    Replay(dumbchess::Error),
}

/// What a game being read holds: its record, the records of its plies so far,
/// the scoring board, the date and time headers, and whether the game is of a
/// variant that is not scored.
pub ghost struct ScoreState {
    pub game: db::GameView,
    pub moves: Seq<db::MoveRecord>,
    pub position: Position,
    pub date: Seq<char>,
    pub time: Seq<char>,
    pub nonstandard_game: bool,
}

/// The state of a game before its headers are read.
pub open spec fn fresh_score() -> ScoreState {
    ScoreState {
        game: db::empty_game(),
        moves: Seq::empty(),
        position: dumbchess::starting_position(),
        date: Seq::empty(),
        time: Seq::empty(),
        nonstandard_game: false,
    }
}

/// How one header tag changes a game being read. Keys are compared in lower
/// case; unknown keys change nothing.
pub open spec fn header_effect(v: ScoreState, key: Seq<char>, value: Seq<char>) -> Result<ScoreState, Error> {
    header_change(v, lower_of(key), value, lower_of(value))
}

/// How a header tag changes a game being read, given its key in lower case `k`,
/// its value, and its value in lower case.
pub open spec fn header_change(v: ScoreState, k: Seq<char>, value: Seq<char>, lowered: Seq<char>) -> Result<
    ScoreState,
    Error,
> {
    if k == "white"@ {
        Ok(ScoreState { game: db::GameView { white_player_name: value, white_player_id: value, ..v.game }, ..v })
    } else if k == "black"@ {
        Ok(ScoreState { game: db::GameView { black_player_name: value, black_player_id: value, ..v.game }, ..v })
    } else if k == "whiteelo"@ {
        match parsed_i32(value) {
            Some(r) => Ok(ScoreState { game: db::GameView { white_player_rating: r, ..v.game }, ..v }),
            None => Err(Error::InvalidRating),
        }
    } else if k == "blackelo"@ {
        match parsed_i32(value) {
            Some(r) => Ok(ScoreState { game: db::GameView { black_player_rating: r, ..v.game }, ..v }),
            None => Err(Error::InvalidRating),
        }
    } else if k == "utcdate"@ || k == "date"@ {
        Ok(ScoreState { date: value, ..v })
    } else if k == "utctime"@ {
        Ok(ScoreState { time: value, ..v })
    } else if k == "endtime"@ {
        Ok(ScoreState { time: first_word(value), ..v })
    } else if k == "site"@ {
        if has_prefix(value, LICHESS_GAME@) {
            Ok(
                ScoreState {
                    game: db::GameView {
                        source: "lichess.org"@,
                        source_id: value.skip(LICHESS_GAME@.len() as int),
                        ..v.game
                    },
                    ..v
                },
            )
        } else {
            Ok(ScoreState { game: db::GameView { source: lowered, ..v.game }, ..v })
        }
    } else if k == "link"@ {
        if has_prefix(value, CHESS_COM_GAME@) {
            Ok(ScoreState { game: db::GameView { source_id: value.skip(CHESS_COM_GAME@.len() as int), ..v.game }, ..v })
        } else {
            Ok(v)
        }
    } else if k == "event"@ {
        if occurs_in("odds chess"@, lowered) || occurs_in("chess960"@, lowered) {
            Ok(ScoreState { nonstandard_game: true, ..v })
        } else {
            Ok(v)
        }
    } else {
        Ok(v)
    }
}

/// Where a lichess game's address starts; its identifier follows.
pub const LICHESS_GAME: &'static str = "https://lichess.org/";

/// Where a chess.com live game's address starts; its identifier follows.
pub const CHESS_COM_GAME: &'static str = "https://www.chess.com/game/live/";

/// How the date and time headers, joined by a space, are read.
pub const DATE_TIME_FORMAT: &'static str = "%Y.%m.%d %H:%M:%S";

/// A game being read from notation, header by header and move by move.
#[derive(Clone)]
pub struct GameScore {
    game: db::Game,
    moves: Vec<db::Move>,
    dumbboard: dumbchess::Board,
    date: String,
    time: String,
    nonstandard_game: bool,
}

impl View for GameScore {
    type V = ScoreState;

    closed spec fn view(&self) -> ScoreState {
        ScoreState {
            game: self.game@,
            moves: self.moves@.map_values(|m: db::Move| m@),
            position: self.dumbboard@,
            date: self.date@,
            time: self.time@,
            nonstandard_game: self.nonstandard_game,
        }
    }
}

impl GameScore {
    pub closed spec fn wf(&self) -> bool {
        &&& self.dumbboard.wf()
        &&& self.dumbboard.moves_made() == self.moves@.len()
    }

    pub fn new() -> (r: GameScore)
        ensures
            r.wf(),
            r@ == fresh_score(),
    {
        let r = GameScore {
            game: db::Game::empty(),
            moves: Vec::new(),
            dumbboard: dumbchess::Board::starting(),
            date: String::new(),
            time: String::new(),
            nonstandard_game: false,
        };
        assert(r@.moves =~= Seq::<db::MoveRecord>::empty());
        r
    }

    /// Reads one header tag. On an error the game is left as it was.
    pub fn header(&mut self, key: &str, value: &str) -> (r: Result<(), Error>)
        requires
            old(self).wf(),
        ensures
            final(self).wf(),
            match header_effect(old(self)@, key@, value@) {
                Ok(v) => r is Ok && final(self)@ == v,
                Err(e) => r == Err::<(), Error>(e) && final(self)@ == old(self)@,
            },
    {
        let k = lowercase(key);
        let lowered = lowercase(value);
        self.apply_header(k.as_str(), value, lowered.as_str())
    }

    /// Reads one header tag given its key in lower case `k` and its value both
    /// as written and in lower case. On an error the game is left as it was.
    pub fn apply_header(&mut self, k: &str, value: &str, lowered: &str) -> (r: Result<(), Error>)
        requires
            old(self).wf(),
        ensures
            final(self).wf(),
            match header_change(old(self)@, k@, value@, lowered@) {
                Ok(v) => r is Ok && final(self)@ == v,
                Err(e) => r == Err::<(), Error>(e) && final(self)@ == old(self)@,
            },
    {
        let k = String::from_str(k);
        if k == String::from_str("white") {
            self.game.white_player_name = String::from_str(value);
            self.game.white_player_id = String::from_str(value);
        } else if k == String::from_str("black") {
            self.game.black_player_name = String::from_str(value);
            self.game.black_player_id = String::from_str(value);
        } else if k == String::from_str("whiteelo") {
            match parse_i32(value) {
                Some(rating) => self.game.white_player_rating = rating,
                None => return Err(Error::InvalidRating),
            }
        } else if k == String::from_str("blackelo") {
            match parse_i32(value) {
                Some(rating) => self.game.black_player_rating = rating,
                None => return Err(Error::InvalidRating),
            }
        } else if k == String::from_str("utcdate") || k == String::from_str("date") {
            self.date = String::from_str(value);
        } else if k == String::from_str("utctime") {
            self.time = String::from_str(value);
        } else if k == String::from_str("endtime") {
            self.time = first_word_exec(value);
        } else if k == String::from_str("site") {
            match strip_prefix(value, LICHESS_GAME) {
                Some(id) => {
                    self.game.source = String::from_str("lichess.org");
                    self.game.source_id = id;
                },
                None => self.game.source = String::from_str(lowered),
            }
        } else if k == String::from_str("link") {
            if let Some(id) = strip_prefix(value, CHESS_COM_GAME) {
                self.game.source_id = id;
            }
        } else if k == String::from_str("event") {
            if contains(lowered, "odds chess") || contains(lowered, "chess960") {
                self.nonstandard_game = true;
            }
        }
        Ok(())
    }

    /// Ends the headers: gives the game a fresh identifier and its end time, read
    /// from the date and time headers, and tells whether its moves are to be
    /// skipped. On an error the game is left as it was.
    pub fn end_headers(&mut self) -> (r: Result<bool, Error>)
        requires
            old(self).wf(),
        ensures
            final(self).wf(),
            match timestamp_of(old(self)@.date + " "@ + old(self)@.time, DATE_TIME_FORMAT@) {
                None => r == Err::<bool, Error>(Error::InvalidDateTime) && final(self)@ == old(self)@,
                Some(t) => {
                    &&& r == Ok::<bool, Error>(old(self)@.nonstandard_game)
                    &&& final(self)@.game.id.len() == 36
                    &&& final(self)@ == (ScoreState {
                        game: db::GameView { id: final(self)@.game.id, end_time: t, ..old(self)@.game },
                        ..old(self)@
                    })
                },
            },
    {
        let date_time = self.date.clone().concat(" ").concat(self.time.as_str());
        let end_time = parse_timestamp(date_time.as_str(), DATE_TIME_FORMAT);
        let id = db::new_game_id();
        self.finish_headers(id, end_time)
    }

    /// Ends the headers with the identifier `id` and the end time read from the
    /// date and time headers, if they could be read; tells whether the game's
    /// moves are to be skipped. On an error the game is left as it was.
    pub fn finish_headers(&mut self, id: String, end_time: Option<i64>) -> (r: Result<bool, Error>)
        requires
            old(self).wf(),
        ensures
            final(self).wf(),
            match end_time {
                None => r == Err::<bool, Error>(Error::InvalidDateTime) && final(self)@ == old(self)@,
                Some(t) => {
                    &&& r == Ok::<bool, Error>(old(self)@.nonstandard_game)
                    &&& final(self)@ == (ScoreState {
                        game: db::GameView { id: id@, end_time: t, ..old(self)@.game },
                        ..old(self)@
                    })
                },
            },
    {
        match end_time {
            None => Err(Error::InvalidDateTime),
            Some(t) => {
                self.game.id = id;
                self.game.end_time = t;
                Ok(self.nonstandard_game)
            },
        }
    }

    /// Plays one move on the scoring board and keeps its record. On an error the
    /// game is left as it was.
    pub fn apply_move(&mut self, source: Square, dest: Square, promotion: Option<PieceType>) -> (r: Result<(), Error>)
        requires
            old(self).wf(),
        ensures
            final(self).wf(),
            old(self)@.moves.len() >= i32::MAX ==> r == Err::<(), Error>(Error::MoveLimit) && final(self)@ == old(self)@,
            old(self)@.moves.len() < i32::MAX ==> match step(old(self)@.position, source, dest, promotion) {
                Ok((p, ply)) => r is Ok && final(self)@ == (ScoreState {
                    position: p,
                    moves: old(self)@.moves.push(record_of(old(self)@.moves.len() as int + 1, ply)),
                    ..old(self)@
                }),
                Err(e) => r == Err::<(), Error>(Error::Replay(e)) && final(self)@ == old(self)@,
            },
    {
        if self.moves.len() >= i32::MAX as usize {
            return Err(Error::MoveLimit);
        }
        match self.dumbboard.make_move(&source, &dest, promotion) {
            Err(e) => Err(Error::Replay(e)),
            Ok(m) => {
                self.moves.push(m);
                assert(self@.moves =~= old(self)@.moves.push(
                    record_of(old(self)@.moves.len() as int + 1, (step(old(self)@.position, source, dest, promotion)->Ok_0).1),
                ));
                Ok(())
            },
        }
    }

    /// A copy of the game being read.
    pub fn copy(&self) -> (r: GameScore)
        requires
            self.wf(),
        ensures
            r.wf(),
            r@ == self@,
    {
        let r = GameScore {
            game: self.game.copy(),
            moves: db::copy_moves(&self.moves),
            dumbboard: self.dumbboard.copy(),
            date: self.date.clone(),
            time: self.time.clone(),
            nonstandard_game: self.nonstandard_game,
        };
        assert(r.moves@.len() == self.moves@.len()) by {
            assert(r.moves@.map_values(|m: db::Move| m@).len() == self.moves@.map_values(|m: db::Move| m@).len());
        }
        r
    }

    /// A copy of the game read, unless it is of a variant that is not scored.
    pub fn end_game(&self) -> (r: Option<GameScore>)
        requires
            self.wf(),
        ensures
            self@.nonstandard_game ==> r is None,
            !self@.nonstandard_game ==> (r matches Some(c) && c.wf() && c@ == self@),
    {
        if self.nonstandard_game {
            None
        } else {
            Some(self.copy())
        }
    }
}

impl Default for GameScore {
    fn default() -> (r: GameScore)
        ensures
            r.wf(),
            r@ == fresh_score(),
    {
        GameScore::new()
    }
}

impl db::Recordable for GameScore {
    /// The game's record as read so far.
    fn game(&self) -> (r: Result<db::Game, db::Error>)
        ensures
            r matches Ok(g) && g@ == self@.game,
    {
        Ok(self.game.copy())
    }

    /// The records of the moves read so far.
    fn moves(&self) -> (r: Result<Vec<db::Move>, db::Error>)
        ensures
            r matches Ok(v) && v@.map_values(|m: db::Move| m@) == self@.moves,
    {
        Ok(db::copy_moves(&self.moves))
    }
}

} // verus!
