//! Piece identities, the encoded move-list decoder and the scoring of whole games.
use vstd::prelude::*;
use crate::api;
use crate::chess_com::{decimal, u64_to_string};
use crate::db;
use crate::dumbchess::{
    lemma_occupied_bounds, lemma_step_occupied, lemma_step_ok, occupied, piece_ok, position_ok, record_of, starting_position, step, Board as EngineBoard, Error as EngineError, Ply,
    Position, Square,
};

verus! {

/// The kind of a piece on the board.
#[derive(Clone, Copy, Debug, PartialEq, Eq, Hash, Structural)]
pub enum PieceType {
    King,
    Queen,
    Bishop,
    Knight,
    Rook,
    Pawn,
}

/// A file of the board, from the queen's rook's file to the king's rook's file.
#[derive(Clone, Copy, Debug, PartialEq, Eq, Hash, Structural)]
pub enum File {
    A,
    B,
    C,
    D,
    E,
    F,
    G,
    H,
}

#[derive(Clone, Copy, Debug, PartialEq, Eq, Hash, Structural)]
pub enum Color {
    White,
    Black,
}

/// The standard material value of a kind of piece.
pub open spec fn kind_value(k: PieceType) -> int {
    match k {
        PieceType::King => 0,
        PieceType::Queen => 9,
        PieceType::Bishop => 3,
        PieceType::Knight => 3,
        PieceType::Rook => 5,
        PieceType::Pawn => 1,
    }
}

/// The capitalised name of a kind of piece, as a score listing writes it.
pub open spec fn kind_title(k: PieceType) -> Seq<char> {
    match k {
        PieceType::King => "King"@,
        PieceType::Queen => "Queen"@,
        PieceType::Bishop => "Bishop"@,
        PieceType::Knight => "Knight"@,
        PieceType::Rook => "Rook"@,
        PieceType::Pawn => "Pawn"@,
    }
}

/// The word that names a kind of piece in a move record.
pub open spec fn kind_word(k: PieceType) -> Seq<char> {
    match k {
        PieceType::King => "king"@,
        PieceType::Queen => "queen"@,
        PieceType::Bishop => "bishop"@,
        PieceType::Knight => "knight"@,
        PieceType::Rook => "rook"@,
        PieceType::Pawn => "pawn"@,
    }
}

impl PieceType {
    pub fn value(&self) -> (r: i32)
        ensures
            r as int == kind_value(*self),
    {
        match self {
            PieceType::King => 0,
            PieceType::Queen => 9,
            PieceType::Bishop => 3,
            PieceType::Knight => 3,
            PieceType::Rook => 5,
            PieceType::Pawn => 1,
        }
    }

    pub fn title(&self) -> (r: &'static str)
        ensures
            r@ == kind_title(*self),
    {
        match self {
            PieceType::King => "King",
            PieceType::Queen => "Queen",
            PieceType::Bishop => "Bishop",
            PieceType::Knight => "Knight",
            PieceType::Rook => "Rook",
            PieceType::Pawn => "Pawn",
        }
    }

    pub fn word(&self) -> (r: &'static str)
        ensures
            r@ == kind_word(*self),
    {
        match self {
            PieceType::King => "king",
            PieceType::Queen => "queen",
            PieceType::Bishop => "bishop",
            PieceType::Knight => "knight",
            PieceType::Rook => "rook",
            PieceType::Pawn => "pawn",
        }
    }
}

impl File {
    pub open spec fn spec_index(self) -> int {
        match self {
            File::A => 0,
            File::B => 1,
            File::C => 2,
            File::D => 3,
            File::E => 4,
            File::F => 5,
            File::G => 6,
            File::H => 7,
        }
    }

    /// The file at a position in `0..8`; positions past 7 give `H`.
    pub open spec fn at(i: int) -> File {
        if i == 0 {
            File::A
        } else if i == 1 {
            File::B
        } else if i == 2 {
            File::C
        } else if i == 3 {
            File::D
        } else if i == 4 {
            File::E
        } else if i == 5 {
            File::F
        } else if i == 6 {
            File::G
        } else {
            File::H
        }
    }

    /// The lower-case letter of the file, as it stands in square names.
    pub open spec fn letter(self) -> Seq<char> {
        match self {
            File::A => "a"@,
            File::B => "b"@,
            File::C => "c"@,
            File::D => "d"@,
            File::E => "e"@,
            File::F => "f"@,
            File::G => "g"@,
            File::H => "h"@,
        }
    }

    /// The upper-case letter of the file, as a score listing writes it.
    pub open spec fn capital(self) -> Seq<char> {
        match self {
            File::A => "A"@,
            File::B => "B"@,
            File::C => "C"@,
            File::D => "D"@,
            File::E => "E"@,
            File::F => "F"@,
            File::G => "G"@,
            File::H => "H"@,
        }
    }

    pub fn capital_name(&self) -> (r: &'static str)
        ensures
            r@ == self.capital(),
    {
        match self {
            File::A => "A",
            File::B => "B",
            File::C => "C",
            File::D => "D",
            File::E => "E",
            File::F => "F",
            File::G => "G",
            File::H => "H",
        }
    }

    pub fn from_index(i: u8) -> (r: File)
        requires
            i < 8,
        ensures
            r == File::at(i as int),
    {
        match i {
            0 => File::A,
            1 => File::B,
            2 => File::C,
            3 => File::D,
            4 => File::E,
            5 => File::F,
            6 => File::G,
            _ => File::H,
        }
    }

    pub fn name(&self) -> (r: &'static str)
        ensures
            r@ == self.letter(),
    {
        match self {
            File::A => "a",
            File::B => "b",
            File::C => "c",
            File::D => "d",
            File::E => "e",
            File::F => "f",
            File::G => "g",
            File::H => "h",
        }
    }

    pub fn index(&self) -> (r: usize)
        ensures
            r as int == self.spec_index(),
    {
        match self {
            File::A => 0,
            File::B => 1,
            File::C => 2,
            File::D => 3,
            File::E => 4,
            File::F => 5,
            File::G => 6,
            File::H => 7,
        }
    }
}

/// The word that names a side in a move record.
pub open spec fn color_word(c: Color) -> Seq<char> {
    match c {
        Color::White => "white"@,
        Color::Black => "black"@,
    }
}

impl Color {
    pub fn name(&self) -> (r: &'static str)
        ensures
            r@ == color_word(*self),
    {
        match self {
            Color::White => "white",
            Color::Black => "black",
        }
    }
}

/// A piece of one of the 32 starting slots. Its kind, color and starting file are
/// its identity and never change; `promoted_value` overrides the value of the kind
/// once the piece has been promoted.
#[derive(Clone, Copy, Debug, PartialEq, Eq, Hash, Structural)]
pub struct Piece {
    pub piece_type: PieceType,
    pub color: Color,
    pub file: File,
    pub promoted_value: Option<i32>,
}

impl Piece {
    /// The current material value of the piece.
    pub open spec fn spec_value(self) -> int {
        match self.promoted_value {
            Some(v) => v as int,
            None => kind_value(self.piece_type),
        }
    }

    /// The same piece, identity unchanged, promoted to a kind.
    pub open spec fn promoted(self, k: PieceType) -> Piece {
        Piece { promoted_value: Some(kind_value(k) as i32), ..self }
    }

    /// Whether the piece moves as a pawn: a pawn that has not been promoted.
    pub open spec fn is_pawn(self) -> bool {
        self.piece_type == PieceType::Pawn && self.promoted_value is None
    }

    /// The display identity of the piece: its kind and its starting file.
    pub open spec fn spec_label(self) -> Seq<char> {
        kind_word(self.piece_type) + " "@ + self.file.letter()
    }

    /// Whether kind, color and file are those of one of the 32 starting slots.
    pub open spec fn is_starting_slot(self) -> bool {
        match self.piece_type {
            PieceType::King => self.file == File::E,
            PieceType::Queen => self.file == File::D,
            PieceType::Rook => self.file == File::A || self.file == File::H,
            PieceType::Knight => self.file == File::B || self.file == File::G,
            PieceType::Bishop => self.file == File::C || self.file == File::F,
            PieceType::Pawn => true,
        }
    }

    /// Position of the piece's identity among the 32 starting slots: white
    /// before black, and within a side king, queen, rooks, knights, bishops,
    /// then the pawns from file A to file H.
    pub open spec fn spec_slot(self) -> int {
        let side = match self.color {
            Color::White => 0int,
            Color::Black => 16int,
        };
        let within = match self.piece_type {
            PieceType::King => 0int,
            PieceType::Queen => 1int,
            PieceType::Rook => if self.file == File::A { 2int } else { 3int },
            PieceType::Knight => if self.file == File::B { 4int } else { 5int },
            PieceType::Bishop => if self.file == File::C { 6int } else { 7int },
            PieceType::Pawn => 8 + self.file.spec_index(),
        };
        side + within
    }

    pub fn new(piece_type: PieceType, color: Color, file: File) -> (r: Piece)
        ensures
            r == (Piece { piece_type, color, file, promoted_value: None }),
    {
        Piece { piece_type, color, file, promoted_value: None }
    }

    /// Promotes the piece: its value becomes that of `piece_type`, its identity stays.
    pub fn with_promotion(self, piece_type: &PieceType) -> (r: Piece)
        ensures
            r == self.promoted(*piece_type),
    {
        let mut p = self;
        p.promoted_value = Some(piece_type.value());
        p
    }

    /// Overrides the value of the piece where a value is given.
    pub fn with_value(self, value: Option<i32>) -> (r: Piece)
        ensures
            r == (match value {
                None => self,
                Some(v) => Piece { promoted_value: Some(v), ..self },
            }),
    {
        match value {
            None => self,
            Some(v) => Piece { promoted_value: Some(v), ..self },
        }
    }

    pub fn value(&self) -> (r: i32)
        ensures
            r as int == self.spec_value(),
    {
        match self.promoted_value {
            Some(v) => v,
            None => self.piece_type.value(),
        }
    }

    /// The display identity, such as `pawn b` or `king e`.
    pub fn label(&self) -> (r: String)
        ensures
            r@ == self.spec_label(),
    {
        let s = String::from_str(self.piece_type.word());
        let s = s.concat(" ");
        s.concat(self.file.name())
    }

    /// The name of the piece in a score listing: its kind capitalised, followed
    /// for a rook, knight, bishop or pawn by its starting file in upper case,
    /// such as `Rook A`, `Pawn B` or `King`.
    pub open spec fn spec_display_name(self) -> Seq<char> {
        match self.piece_type {
            PieceType::King | PieceType::Queen => kind_title(self.piece_type),
            _ => kind_title(self.piece_type) + " "@ + self.file.capital(),
        }
    }

    pub fn display_name(&self) -> (r: String)
        ensures
            r@ == self.spec_display_name(),
    {
        let s = String::from_str(self.piece_type.title());
        match self.piece_type {
            PieceType::King | PieceType::Queen => s,
            _ => s.concat(" ").concat(self.file.capital_name()),
        }
    }

    pub fn is_pawn_exec(&self) -> (r: bool)
        ensures
            r == self.is_pawn(),
    {
        self.piece_type == PieceType::Pawn && self.promoted_value.is_none()
    }

    pub fn is_starting_slot_exec(&self) -> (r: bool)
        ensures
            r == self.is_starting_slot(),
    {
        match self.piece_type {
            PieceType::King => self.file == File::E,
            PieceType::Queen => self.file == File::D,
            PieceType::Rook => self.file == File::A || self.file == File::H,
            PieceType::Knight => self.file == File::B || self.file == File::G,
            PieceType::Bishop => self.file == File::C || self.file == File::F,
            PieceType::Pawn => true,
        }
    }

    pub fn slot(&self) -> (r: usize)
        requires
            self.is_starting_slot(),
        ensures
            r as int == self.spec_slot(),
            r < 32,
    {
        let side: usize = match self.color {
            Color::White => 0,
            Color::Black => 16,
        };
        let within: usize = match self.piece_type {
            PieceType::King => 0,
            PieceType::Queen => 1,
            PieceType::Rook => if self.file == File::A { 2 } else { 3 },
            PieceType::Knight => if self.file == File::B { 4 } else { 5 },
            PieceType::Bishop => if self.file == File::C { 6 } else { 7 },
            PieceType::Pawn => 8 + self.file.index(),
        };
        side + within
    }

    /// The starting piece of a slot, in the order of `slot`.
    pub open spec fn slot_piece(slot: int) -> Piece {
        let color = if slot < 16 {
            Color::White
        } else {
            Color::Black
        };
        let within = slot % 16;
        let (piece_type, file) = if within == 0 {
            (PieceType::King, File::E)
        } else if within == 1 {
            (PieceType::Queen, File::D)
        } else if within == 2 {
            (PieceType::Rook, File::A)
        } else if within == 3 {
            (PieceType::Rook, File::H)
        } else if within == 4 {
            (PieceType::Knight, File::B)
        } else if within == 5 {
            (PieceType::Knight, File::G)
        } else if within == 6 {
            (PieceType::Bishop, File::C)
        } else if within == 7 {
            (PieceType::Bishop, File::F)
        } else {
            (PieceType::Pawn, File::at(within - 8))
        };
        Piece { piece_type, color, file, promoted_value: None }
    }

    /// The starting piece of a slot, in the order of `slot`.
    pub fn of_slot(slot: usize) -> (r: Piece)
        requires
            slot < 32,
        ensures
            r == Piece::slot_piece(slot as int),
            r.is_starting_slot(),
            r.spec_slot() == slot,
    {
        let color = if slot < 16 {
            Color::White
        } else {
            Color::Black
        };
        let within = slot % 16;
        if within == 0 {
            Piece::new(PieceType::King, color, File::E)
        } else if within == 1 {
            Piece::new(PieceType::Queen, color, File::D)
        } else if within == 2 {
            Piece::new(PieceType::Rook, color, File::A)
        } else if within == 3 {
            Piece::new(PieceType::Rook, color, File::H)
        } else if within == 4 {
            Piece::new(PieceType::Knight, color, File::B)
        } else if within == 5 {
            Piece::new(PieceType::Knight, color, File::G)
        } else if within == 6 {
            Piece::new(PieceType::Bishop, color, File::C)
        } else if within == 7 {
            Piece::new(PieceType::Bishop, color, File::F)
        } else {
            Piece::new(PieceType::Pawn, color, File::from_index((within - 8) as u8))
        }
    }
}

/// Why a game could not be replayed. Squares are given by their symbol in the
/// encoded move list.
#[derive(Clone, Copy, Debug, PartialEq, Eq, Hash, Structural)]
pub enum Error {
    /// The square was expected to hold a piece and held none.
    PieceNotFound(char),
    /// The pawn to be taken en passant was not on its square.
    EnPassantPieceNotFound(char),
    /// The move list has an odd number of symbols: its last ply has no destination.
    OddLength,
    /// The two symbols of a ply do not stand for an origin and a destination.
    BadEncoding(char, char),
}

pub open spec fn engine_error(e: EngineError) -> Error {
    match e {
        EngineError::PieceNotFound(s) => Error::PieceNotFound(s.spec_code()),
        EngineError::EnPassantPieceNotFound(s) => Error::EnPassantPieceNotFound(s.spec_code()),
    }
}

fn engine_error_exec(e: EngineError) -> (r: Error)
    ensures
        r == engine_error(e),
{
    match e {
        EngineError::PieceNotFound(s) => Error::PieceNotFound(s.code()),
        EngineError::EnPassantPieceNotFound(s) => Error::EnPassantPieceNotFound(s.code()),
    }
}

/// A destination symbol outside the 64 squares marks a promotion: it gives the
/// direction of the pawn's last step (-1 toward file A, 0 straight, 1 toward file
/// H) and the kind it promotes to.
pub open spec fn promotion_marker(c: char) -> Option<(int, PieceType)> {
    match c {
        '~' => Some((0int, PieceType::Queen)),
        '^' => Some((0int, PieceType::Knight)),
        '_' => Some((0int, PieceType::Rook)),
        '#' => Some((0int, PieceType::Bishop)),
        '(' => Some((-1int, PieceType::Knight)),
        '{' => Some((-1int, PieceType::Queen)),
        '[' => Some((-1int, PieceType::Rook)),
        '@' => Some((-1int, PieceType::Bishop)),
        '}' => Some((1int, PieceType::Queen)),
        ')' => Some((1int, PieceType::Knight)),
        ']' => Some((1int, PieceType::Rook)),
        '$' => Some((1int, PieceType::Bishop)),
        _ => None,
    }
}

/// The square a pawn on `start` promotes on when it steps in direction `dir`: a
/// pawn on the seventh rank steps to the eighth, one on the second rank to the first.
pub open spec fn promotion_square(start: Square, dir: int) -> Option<Square> {
    let s = start.spec_index();
    if !(0 <= s % 8 + dir < 8) {
        None
    } else if 48 <= s < 56 {
        Some(Square::at(s + 8 + dir))
    } else if 8 <= s < 16 {
        Some(Square::at(s - 8 + dir))
    } else {
        None
    }
}

/// The ply that two symbols of a move list stand for: origin, destination and,
/// for a promotion, the kind promoted to.
pub open spec fn decode(a: char, b: char) -> Option<(Square, Square, Option<PieceType>)> {
    match Square::of_code(a) {
        None => None,
        Some(start) => match Square::of_code(b) {
            Some(end) => Some((start, end, None)),
            None => match promotion_marker(b) {
                None => None,
                Some((dir, kind)) => match promotion_square(start, dir) {
                    None => None,
                    Some(end) => Some((start, end, Some(kind))),
                },
            },
        },
    }
}

fn promotion_marker_exec(c: char) -> (r: Option<(i8, PieceType)>)
    ensures
        match promotion_marker(c) {
            None => r is None,
            Some((d, k)) => r matches Some((rd, rk)) && rd as int == d && rk == k,
        },
{
    match c {
        '~' => Some((0, PieceType::Queen)),
        '^' => Some((0, PieceType::Knight)),
        '_' => Some((0, PieceType::Rook)),
        '#' => Some((0, PieceType::Bishop)),
        '(' => Some((-1, PieceType::Knight)),
        '{' => Some((-1, PieceType::Queen)),
        '[' => Some((-1, PieceType::Rook)),
        '@' => Some((-1, PieceType::Bishop)),
        '}' => Some((1, PieceType::Queen)),
        ')' => Some((1, PieceType::Knight)),
        ']' => Some((1, PieceType::Rook)),
        '$' => Some((1, PieceType::Bishop)),
        _ => None,
    }
}

fn promotion_square_exec(start: Square, dir: i8) -> (r: Option<Square>)
    requires
        -1 <= dir <= 1,
    ensures
        r == promotion_square(start, dir as int),
{
    broadcast use crate::dumbchess::lemma_square_index;
    let s = start.index() as i16;
    let f = s % 8 + dir as i16;
    if f < 0 || f >= 8 {
        None
    } else if 48 <= s && s < 56 {
        Some(Square::from_index((s + 8 + dir as i16) as u8))
    } else if 8 <= s && s < 16 {
        Some(Square::from_index((s - 8 + dir as i16) as u8))
    } else {
        None
    }
}

/// Decodes the two symbols of one ply.
pub fn decode_ply(a: char, b: char) -> (r: Option<(Square, Square, Option<PieceType>)>)
    ensures
        r == decode(a, b),
{
    let start = match Square::from_code(a) {
        None => return None,
        Some(s) => s,
    };
    if let Some(end) = Square::from_code(b) {
        return Some((start, end, None));
    }
    match promotion_marker_exec(b) {
        None => None,
        Some((dir, kind)) => match promotion_square_exec(start, dir) {
            None => None,
            Some(end) => Some((start, end, Some(kind))),
        },
    }
}

/// One encoded ply applied to a position.
pub open spec fn apply_encoded(p: Position, a: char, b: char) -> Result<(Position, Ply), Error> {
    match decode(a, b) {
        None => Err(Error::BadEncoding(a, b)),
        Some((start, end, promotion)) => match step(p, start, end, promotion) {
            Err(e) => Err(engine_error(e)),
            Ok(r) => Ok(r),
        },
    }
}

/// The first `n` plies of the move list `s` replayed from the starting position:
/// the position reached and what each ply did.
pub open spec fn replay(s: Seq<char>, n: nat) -> Result<(Position, Seq<Ply>), Error>
    decreases n,
{
    if n == 0 {
        Ok((starting_position(), Seq::empty()))
    } else {
        match replay(s, (n - 1) as nat) {
            Err(e) => Err(e),
            Ok((p, plies)) => match apply_encoded(p, s[2 * n - 2], s[2 * n - 1]) {
                Err(e) => Err(e),
                Ok((q, ply)) => Ok((q, plies.push(ply))),
            },
        }
    }
}

/// The whole move list replayed: every ply in order, or the first failure.
pub open spec fn replay_game(s: Seq<char>) -> Result<Seq<Ply>, Error> {
    if s.len() % 2 == 1 {
        Err(Error::OddLength)
    } else {
        match replay(s, s.len() / 2) {
            Err(e) => Err(e),
            Ok((_, plies)) => Ok(plies),
        }
    }
}

/// The material captured over `plies` by the piece of a starting slot.
pub open spec fn tally(plies: Seq<Ply>, slot: int) -> int
    decreases plies.len(),
{
    if plies.len() == 0 {
        0
    } else {
        tally(plies.drop_last(), slot) + if plies.last().mover.spec_slot() == slot {
            plies.last().spec_score()
        } else {
            0
        }
    }
}

/// A game in progress, moved by the symbols of an encoded move list.
pub struct Board {
    board: EngineBoard,
}

impl View for Board {
    type V = Position;

    closed spec fn view(&self) -> Position {
        self.board@
    }
}

impl Board {
    pub open spec fn wf(&self) -> bool {
        &&& position_ok(self@)
        &&& self.moves_made() >= 0
    }

    pub closed spec fn moves_made(&self) -> int {
        self.board.moves_made()
    }

    pub fn starting() -> (r: Board)
        ensures
            r.wf(),
            r@ == starting_position(),
            r.moves_made() == 0,
    {
        Board { board: EngineBoard::starting() }
    }

    /// The piece on a square.
    pub fn piece_at(&self, square: Square) -> (r: Option<Piece>)
        requires
            self.wf(),
        ensures
            r == self@.squares[square.spec_index()],
    {
        self.board.piece_at(square)
    }

    /// Applies the ply that `start` and `end` encode and returns the piece that
    /// moved with the value it took. On an error the board is left as it was.
    pub fn move_and_score(&mut self, start: char, end: char) -> (r: Result<(Piece, i32), Error>)
        requires
            old(self).wf(),
        ensures
            final(self).wf(),
            final(self).moves_made() == old(self).moves_made(),
            match apply_encoded(old(self)@, start, end) {
                Ok((p, ply)) => {
                    &&& final(self)@ == p
                    &&& r matches Ok((m, v)) && m == ply.mover && v as int == ply.spec_score()
                },
                Err(e) => r == Err::<(Piece, i32), Error>(e) && final(self)@ == old(self)@,
            },
    {
        let (a, b, promotion) = match decode_ply(start, end) {
            None => return Err(Error::BadEncoding(start, end)),
            Some(d) => d,
        };
        match self.board.apply(a, b, promotion) {
            Err(e) => Err(engine_error_exec(e)),
            Ok(ply) => {
                proof {
                    lemma_step_ok(old(self)@, a, b, promotion);
                }
                Ok((ply.mover, ply.score()))
            },
        }
    }

    /// Applies the ply that `start` and `end` encode and returns its record. On an
    /// error the board is left as it was.
    pub fn make_move(&mut self, start: char, end: char) -> (r: Result<db::Move, Error>)
        requires
            old(self).wf(),
            old(self).moves_made() < i32::MAX,
        ensures
            final(self).wf(),
            match apply_encoded(old(self)@, start, end) {
                Ok((p, ply)) => {
                    &&& final(self)@ == p
                    &&& final(self).moves_made() == old(self).moves_made() + 1
                    &&& r matches Ok(m) && m@ == record_of(final(self).moves_made(), ply)
                },
                Err(e) => {
                    &&& r == Err::<db::Move, Error>(e)
                    &&& final(self)@ == old(self)@
                    &&& final(self).moves_made() == old(self).moves_made()
                },
            },
    {
        let (a, b, promotion) = match decode_ply(start, end) {
            None => return Err(Error::BadEncoding(start, end)),
            Some(d) => d,
        };
        match self.board.make_move(&a, &b, promotion) {
            Err(e) => Err(engine_error_exec(e)),
            Ok(m) => Ok(m),
        }
    }
}

/// Once a replay fails, every longer replay fails the same way.
pub proof fn lemma_replay_err(s: Seq<char>, i: nat, n: nat)
    requires
        i <= n,
        replay(s, i) is Err,
    ensures
        replay(s, n) == replay(s, i),
    decreases n - i,
{
    if i < n {
        lemma_replay_err(s, i, (n - 1) as nat);
    }
}

/// What a replay reaches: a valid position, one ply per pair of symbols, and for
/// each starting slot a captured total that fits the pieces gone from the board.
pub proof fn lemma_replay_ok(s: Seq<char>, n: nat)
    ensures
        replay(s, n) matches Ok((p, plies)) ==> {
            &&& position_ok(p)
            &&& plies.len() == n
            &&& forall|k: int| 0 <= #[trigger] tally(plies, k) <= 9 * (64 - occupied(p.squares))
            &&& forall|j: int| 0 <= j < n ==> piece_ok(#[trigger] plies[j].mover)
        },
    decreases n,
{
    lemma_start_ok();
    if n > 0 {
        lemma_replay_ok(s, (n - 1) as nat);
        if let Ok((p, plies)) = replay(s, (n - 1) as nat) {
            let a = s[2 * n - 2];
            let b = s[2 * n - 1];
            lemma_occupied_bounds(p.squares);
            if let Some((start, end, promotion)) = decode(a, b) {
                lemma_step_ok(p, start, end, promotion);
                lemma_step_occupied(p, start, end, promotion);
                if let Ok((q, ply)) = step(p, start, end, promotion) {
                    let all = plies.push(ply);
                    assert(all.drop_last() =~= plies);
                    assert forall|k: int| 0 <= #[trigger] tally(all, k) <= 9 * (64 - occupied(q.squares)) by {
                        assert(tally(plies, k) <= 9 * (64 - occupied(p.squares)));
                    }
                    assert forall|j: int| 0 <= j < n implies piece_ok(#[trigger] all[j].mover) by {
                        if j < n - 1 {
                            assert(all[j] == plies[j]);
                        }
                    }
                }
            }
        }
    } else {
        lemma_occupied_bounds(starting_position().squares);
    }
}

proof fn lemma_start_ok()
    ensures
        position_ok(starting_position()),
{
    assert forall|i: int| 0 <= i < 64 && (#[trigger] starting_position().squares[i]) is Some implies piece_ok(
        starting_position().squares[i]->0,
    ) by {
    }
}

/// Every ply of a replayed game stands for two symbols of its move list, and a
/// list with an odd number of symbols never replays.
pub proof fn lemma_ply_count(s: Seq<char>)
    ensures
        s.len() % 2 == 1 ==> replay_game(s) == Err::<Seq<Ply>, Error>(Error::OddLength),
        replay_game(s) matches Ok(plies) ==> 2 * plies.len() == s.len(),
{
    lemma_replay_ok(s, s.len() / 2);
}

/// The captured material of each of the 32 starting slots over one game.
pub struct PieceScore {
    scores: Vec<i32>,
}

impl View for PieceScore {
    type V = Seq<i32>;

    closed spec fn view(&self) -> Seq<i32> {
        self.scores@
    }
}

/// A number in decimal, with a leading `-` when it is negative.
pub open spec fn signed_decimal(v: int) -> Seq<char> {
    if v < 0 {
        "-"@ + decimal((-v) as nat)
    } else {
        decimal(v as nat)
    }
}

fn i32_to_string(v: i32) -> (r: String)
    ensures
        r@ == signed_decimal(v as int),
{
    if v < 0 {
        String::from_str("-").concat(u64_to_string((-(v as i64)) as u64).as_str())
    } else {
        u64_to_string(v as u64)
    }
}

/// The line of the listing for one starting slot: its piece and its total.
pub open spec fn listing_line(scores: Seq<i32>, slot: int) -> Seq<char> {
    "\t"@ + Piece::slot_piece(slot).spec_display_name() + " - "@ + signed_decimal(scores[slot] as int) + "\n"@
}

/// The lines of the listing for the slots from `from` up to `to`.
pub open spec fn listing_lines(scores: Seq<i32>, from: int, to: int) -> Seq<char>
    decreases to - from,
{
    if to <= from {
        Seq::empty()
    } else {
        listing_lines(scores, from, to - 1) + listing_line(scores, to - 1)
    }
}

/// The listing of a game's scores: white's sixteen starting pieces, an empty
/// line, then black's, each piece with the material it captured.
pub open spec fn score_listing(scores: Seq<i32>) -> Seq<char> {
    "White:\n"@ + listing_lines(scores, 0, 16) + "\nBlack:\n"@ + listing_lines(scores, 16, 32)
}

impl PieceScore {
    fn append_lines(&self, out: &mut String, from: usize, to: usize)
        requires
            self@.len() == 32,
            from <= to <= 32,
        ensures
            final(out)@ == old(out)@ + listing_lines(self@, from as int, to as int),
    {
        let mut i = from;
        while i < to
            invariant
                self@.len() == 32,
                from <= i <= to <= 32,
                out@ == old(out)@ + listing_lines(self@, from as int, i as int),
            decreases to - i,
        {
            let piece = Piece::of_slot(i);
            out.append("\t");
            out.append(piece.display_name().as_str());
            out.append(" - ");
            out.append(i32_to_string(self.scores[i]).as_str());
            out.append("\n");
            assert(out@ =~= old(out)@ + listing_lines(self@, from as int, i + 1));
            i = i + 1;
        }
    }

    /// The listing of the scores, one line per starting piece.
    pub fn render(&self) -> (r: String)
        requires
            self@.len() == 32,
        ensures
            r@ == score_listing(self@),
    {
        let mut out = String::from_str("White:\n");
        self.append_lines(&mut out, 0, 16);
        out.append("\nBlack:\n");
        self.append_lines(&mut out, 16, 32);
        assert(out@ =~= score_listing(self@));
        out
    }

    /// The captured material of the piece's starting slot; `None` for a kind,
    /// color and file that no piece starts with.
    pub fn get(&self, piece: &Piece) -> (r: Option<i32>)
        requires
            self@.len() == 32,
        ensures
            r == (if piece.is_starting_slot() {
                Some(self@[piece.spec_slot()])
            } else {
                None
            }),
    {
        if piece.is_starting_slot_exec() {
            Some(self.scores[piece.slot()])
        } else {
            None
        }
    }
}

/// The material captured over all of `plies`.
pub open spec fn captured_total(plies: Seq<Ply>) -> int
    decreases plies.len(),
{
    if plies.len() == 0 {
        0
    } else {
        captured_total(plies.drop_last()) + plies.last().spec_score()
    }
}

/// The captured totals of the first `n` starting slots added up.
pub open spec fn slot_sum(plies: Seq<Ply>, n: int) -> int
    decreases n,
{
    if n <= 0 {
        0
    } else {
        slot_sum(plies, n - 1) + tally(plies, n - 1)
    }
}

/// The first `n` entries of `v` added up.
pub open spec fn scores_sum(v: Seq<i32>, n: int) -> int
    decreases n,
{
    if n <= 0 {
        0
    } else {
        scores_sum(v, n - 1) + v[n - 1] as int
    }
}

proof fn lemma_slot_sum_empty(n: int)
    ensures
        slot_sum(Seq::<Ply>::empty(), n) == 0,
    decreases n,
{
    if n > 0 {
        lemma_slot_sum_empty(n - 1);
    }
}

proof fn lemma_slot_sum_push(plies: Seq<Ply>, ply: Ply, n: int)
    ensures
        slot_sum(plies.push(ply), n) == slot_sum(plies, n) + if 0 <= ply.mover.spec_slot() < n {
            ply.spec_score()
        } else {
            0
        },
    decreases n,
{
    assert(plies.push(ply).drop_last() =~= plies);
    if n > 0 {
        lemma_slot_sum_push(plies, ply, n - 1);
    }
}

/// Where every ply's mover has a starting slot, the 32 totals add up to all the
/// material captured.
proof fn lemma_slot_sum_total(plies: Seq<Ply>)
    requires
        forall|j: int| 0 <= j < plies.len() ==> piece_ok(#[trigger] plies[j].mover),
    ensures
        slot_sum(plies, 32) == captured_total(plies),
    decreases plies.len(),
{
    if plies.len() == 0 {
        lemma_slot_sum_empty(32);
        assert(plies =~= Seq::<Ply>::empty());
    } else {
        let rest = plies.drop_last();
        assert forall|j: int| 0 <= j < rest.len() implies piece_ok(#[trigger] rest[j].mover) by {
            assert(rest[j] == plies[j]);
        }
        lemma_slot_sum_total(rest);
        lemma_slot_sum_push(rest, plies.last(), 32);
        assert(rest.push(plies.last()) =~= plies);
        let m = plies[plies.len() - 1].mover;
        assert(piece_ok(m));
        assert(0 <= m.file.spec_index() < 8);
        assert(0 <= m.spec_slot() < 32);
    }
}

proof fn lemma_scores_sum(v: Seq<i32>, plies: Seq<Ply>, n: int)
    requires
        n <= 32,
        v.len() == 32,
        forall|k: int| 0 <= k < 32 ==> #[trigger] v[k] as int == tally(plies, k),
    ensures
        scores_sum(v, n) == slot_sum(plies, n),
    decreases n,
{
    if n > 0 {
        lemma_scores_sum(v, plies, n - 1);
        assert(v[n - 1] as int == tally(plies, n - 1));
    }
}

/// Replays a game and sums, for each starting slot, the material that its piece
/// captured.
pub fn score_game(game: &api::Game) -> (r: Result<PieceScore, Error>)
    ensures
        match replay_game(game.move_list@) {
            Err(e) => r == Err::<PieceScore, Error>(e),
            Ok(plies) => r matches Ok(score) && {
                &&& score@.len() == 32
                &&& forall|k: int| 0 <= k < 32 ==> #[trigger] score@[k] as int == tally(plies, k)
                &&& scores_sum(score@, 32) == captured_total(plies)
            },
        },
{
    let moves = game.move_list.as_str();
    let n = moves.unicode_len();
    if n % 2 == 1 {
        return Err(Error::OddLength);
    }
    let mut scores: Vec<i32> = Vec::new();
    while scores.len() < 32
        invariant
            scores@.len() <= 32,
            forall|k: int| 0 <= k < scores@.len() ==> scores@[k] == 0,
        decreases 32 - scores@.len(),
    {
        scores.push(0);
    }
    let mut board = Board::starting();
    let mut i: usize = 0;
    while i < n / 2
        invariant
            n == moves@.len(),
            n % 2 == 0,
            moves@ == game.move_list@,
            i <= n / 2,
            board.wf(),
            scores@.len() == 32,
            replay(moves@, i as nat) matches Ok((p, plies)) && board@ == p && forall|k: int|
                0 <= k < 32 ==> scores@[k] as int == #[trigger] tally(plies, k),
        decreases n / 2 - i,
    {
        let a = moves.get_char(2 * i);
        let b = moves.get_char(2 * i + 1);
        let ghost before = replay(moves@, i as nat);
        proof {
            lemma_replay_ok(moves@, (i + 1) as nat);
            if let Some((start, end, promotion)) = decode(a, b) {
                lemma_step_ok(board@, start, end, promotion);
            }
        }
        match board.move_and_score(a, b) {
            Err(e) => {
                proof {
                    lemma_replay_err(moves@, (i + 1) as nat, (n / 2) as nat);
                }
                return Err(e);
            },
            Ok((mover, value)) => {
                let ghost plies = (before->Ok_0).1;
                let ghost all = (replay(moves@, (i + 1) as nat)->Ok_0).1;
                proof {
                    assert(all.drop_last() =~= plies);
                }
                let k = mover.slot();
                proof {
                    lemma_occupied_bounds(board@.squares);
                    assert(tally(all, k as int) == tally(plies, k as int) + value);
                }
                let total = scores[k] + value;
                scores.set(k, total);
                assert forall|j: int| 0 <= j < 32 implies scores@[j] as int == #[trigger] tally(all, j) by {
                    assert(tally(all, j) == tally(plies, j) + if all.last().mover.spec_slot() == j {
                        all.last().spec_score()
                    } else {
                        0
                    });
                }
            },
        }
        i = i + 1;
    }
    proof {
        lemma_replay_ok(moves@, i as nat);
        let plies = (replay(moves@, i as nat)->Ok_0).1;
        lemma_scores_sum(scores@, plies, 32);
        lemma_slot_sum_total(plies);
    }
    Ok(PieceScore { scores })
}

/// Whether `records` are those of the plies of the move list `s`, in order and
/// numbered from 1.
pub open spec fn records_of_game(s: Seq<char>, records: Seq<db::Move>) -> bool {
    replay_game(s) matches Ok(plies) && records.len() == plies.len() && forall|j: int|
        0 <= j < records.len() ==> (#[trigger] records[j])@ == record_of(j + 1, plies[j])
}

/// Replaying one move list twice, each time from a fresh board, gives the same
/// records.
pub proof fn lemma_replay_deterministic(s: Seq<char>, first: Seq<db::Move>, second: Seq<db::Move>)
    requires
        records_of_game(s, first),
        records_of_game(s, second),
    ensures
        first.len() == second.len(),
        forall|j: int| 0 <= j < first.len() ==> (#[trigger] first[j])@ == second[j]@,
{
}

/// Replays a game and returns the record of every ply, numbered from 1.
pub fn replay_moves(move_list: &str) -> (r: Result<Vec<db::Move>, Error>)
    requires
        move_list@.len() <= 2 * i32::MAX,
    ensures
        move_list@.len() % 2 == 1 ==> r == Err::<Vec<db::Move>, Error>(Error::OddLength),
        r matches Ok(v) ==> 2 * v@.len() == move_list@.len(),
        match replay_game(move_list@) {
            Err(e) => r == Err::<Vec<db::Move>, Error>(e),
            Ok(_) => r matches Ok(v) && records_of_game(move_list@, v@),
        },
{
    proof {
        lemma_ply_count(move_list@);
    }
    let n = move_list.unicode_len();
    if n % 2 == 1 {
        return Err(Error::OddLength);
    }
    let mut records: Vec<db::Move> = Vec::new();
    let mut board = Board::starting();
    let mut i: usize = 0;
    while i < n / 2
        invariant
            n == move_list@.len(),
            n % 2 == 0,
            n <= 2 * i32::MAX,
            i <= n / 2,
            board.wf(),
            board.moves_made() == i,
            records@.len() == i,
            replay(move_list@, i as nat) matches Ok((p, plies)) && board@ == p && forall|j: int|
                0 <= j < i ==> (#[trigger] records@[j])@ == record_of(j + 1, plies[j]),
        decreases n / 2 - i,
    {
        let a = move_list.get_char(2 * i);
        let b = move_list.get_char(2 * i + 1);
        let ghost before = replay(move_list@, i as nat);
        proof {
            lemma_replay_ok(move_list@, i as nat);
        }
        match board.make_move(a, b) {
            Err(e) => {
                proof {
                    lemma_replay_err(move_list@, (i + 1) as nat, (n / 2) as nat);
                }
                return Err(e);
            },
            Ok(m) => {
                let ghost all = (replay(move_list@, (i + 1) as nat)->Ok_0).1;
                records.push(m);
                assert forall|j: int| 0 <= j < i + 1 implies (#[trigger] records@[j])@ == record_of(j + 1, all[j]) by {
                    if j < i {
                        assert(all[j] == ((before->Ok_0).1)[j]);
                    }
                }
            },
        }
        i = i + 1;
    }
    proof {
        lemma_replay_ok(move_list@, i as nat);
    }
    Ok(records)
}

} // verus!
