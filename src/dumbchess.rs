//! Squares and the board engine that applies one ply at a time.
use vstd::prelude::*;
use crate::analysis::{kind_value, Color, File, Piece, PieceType};
use crate::db;

verus! {

/// One of the 64 squares of the board, file A to H by rank 1 to 8.
#[derive(Clone, Copy, Debug, PartialEq, Eq, Hash, Structural)]
pub enum Square {
    A1,
    B1,
    C1,
    D1,
    E1,
    F1,
    G1,
    H1,
    A2,
    B2,
    C2,
    D2,
    E2,
    F2,
    G2,
    H2,
    A3,
    B3,
    C3,
    D3,
    E3,
    F3,
    G3,
    H3,
    A4,
    B4,
    C4,
    D4,
    E4,
    F4,
    G4,
    H4,
    A5,
    B5,
    C5,
    D5,
    E5,
    F5,
    G5,
    H5,
    A6,
    B6,
    C6,
    D6,
    E6,
    F6,
    G6,
    H6,
    A7,
    B7,
    C7,
    D7,
    E7,
    F7,
    G7,
    H7,
    A8,
    B8,
    C8,
    D8,
    E8,
    F8,
    G8,
    H8,
}

impl Square {
    /// Position of the square in rank-major order: `A1` is 0, `H1` is 7, `H8` is 63.
    pub open spec fn spec_index(self) -> int {
        match self {
            Square::A1 => 0,
            Square::B1 => 1,
            Square::C1 => 2,
            Square::D1 => 3,
            Square::E1 => 4,
            Square::F1 => 5,
            Square::G1 => 6,
            Square::H1 => 7,
            Square::A2 => 8,
            Square::B2 => 9,
            Square::C2 => 10,
            Square::D2 => 11,
            Square::E2 => 12,
            Square::F2 => 13,
            Square::G2 => 14,
            Square::H2 => 15,
            Square::A3 => 16,
            Square::B3 => 17,
            Square::C3 => 18,
            Square::D3 => 19,
            Square::E3 => 20,
            Square::F3 => 21,
            Square::G3 => 22,
            Square::H3 => 23,
            Square::A4 => 24,
            Square::B4 => 25,
            Square::C4 => 26,
            Square::D4 => 27,
            Square::E4 => 28,
            Square::F4 => 29,
            Square::G4 => 30,
            Square::H4 => 31,
            Square::A5 => 32,
            Square::B5 => 33,
            Square::C5 => 34,
            Square::D5 => 35,
            Square::E5 => 36,
            Square::F5 => 37,
            Square::G5 => 38,
            Square::H5 => 39,
            Square::A6 => 40,
            Square::B6 => 41,
            Square::C6 => 42,
            Square::D6 => 43,
            Square::E6 => 44,
            Square::F6 => 45,
            Square::G6 => 46,
            Square::H6 => 47,
            Square::A7 => 48,
            Square::B7 => 49,
            Square::C7 => 50,
            Square::D7 => 51,
            Square::E7 => 52,
            Square::F7 => 53,
            Square::G7 => 54,
            Square::H7 => 55,
            Square::A8 => 56,
            Square::B8 => 57,
            Square::C8 => 58,
            Square::D8 => 59,
            Square::E8 => 60,
            Square::F8 => 61,
            Square::G8 => 62,
            Square::H8 => 63,
        }
    }

    /// The square at a rank-major position; positions past 63 give `H8`.
    pub open spec fn at(i: int) -> Square {
        if i == 0 {
            Square::A1
        } else if i == 1 {
            Square::B1
        } else if i == 2 {
            Square::C1
        } else if i == 3 {
            Square::D1
        } else if i == 4 {
            Square::E1
        } else if i == 5 {
            Square::F1
        } else if i == 6 {
            Square::G1
        } else if i == 7 {
            Square::H1
        } else if i == 8 {
            Square::A2
        } else if i == 9 {
            Square::B2
        } else if i == 10 {
            Square::C2
        } else if i == 11 {
            Square::D2
        } else if i == 12 {
            Square::E2
        } else if i == 13 {
            Square::F2
        } else if i == 14 {
            Square::G2
        } else if i == 15 {
            Square::H2
        } else if i == 16 {
            Square::A3
        } else if i == 17 {
            Square::B3
        } else if i == 18 {
            Square::C3
        } else if i == 19 {
            Square::D3
        } else if i == 20 {
            Square::E3
        } else if i == 21 {
            Square::F3
        } else if i == 22 {
            Square::G3
        } else if i == 23 {
            Square::H3
        } else if i == 24 {
            Square::A4
        } else if i == 25 {
            Square::B4
        } else if i == 26 {
            Square::C4
        } else if i == 27 {
            Square::D4
        } else if i == 28 {
            Square::E4
        } else if i == 29 {
            Square::F4
        } else if i == 30 {
            Square::G4
        } else if i == 31 {
            Square::H4
        } else if i == 32 {
            Square::A5
        } else if i == 33 {
            Square::B5
        } else if i == 34 {
            Square::C5
        } else if i == 35 {
            Square::D5
        } else if i == 36 {
            Square::E5
        } else if i == 37 {
            Square::F5
        } else if i == 38 {
            Square::G5
        } else if i == 39 {
            Square::H5
        } else if i == 40 {
            Square::A6
        } else if i == 41 {
            Square::B6
        } else if i == 42 {
            Square::C6
        } else if i == 43 {
            Square::D6
        } else if i == 44 {
            Square::E6
        } else if i == 45 {
            Square::F6
        } else if i == 46 {
            Square::G6
        } else if i == 47 {
            Square::H6
        } else if i == 48 {
            Square::A7
        } else if i == 49 {
            Square::B7
        } else if i == 50 {
            Square::C7
        } else if i == 51 {
            Square::D7
        } else if i == 52 {
            Square::E7
        } else if i == 53 {
            Square::F7
        } else if i == 54 {
            Square::G7
        } else if i == 55 {
            Square::H7
        } else if i == 56 {
            Square::A8
        } else if i == 57 {
            Square::B8
        } else if i == 58 {
            Square::C8
        } else if i == 59 {
            Square::D8
        } else if i == 60 {
            Square::E8
        } else if i == 61 {
            Square::F8
        } else if i == 62 {
            Square::G8
        } else {
            Square::H8
        }
    }

    /// The symbol that stands for the square in an encoded move list.
    pub open spec fn spec_code(self) -> char {
        match self {
            Square::A1 => 'a',
            Square::B1 => 'b',
            Square::C1 => 'c',
            Square::D1 => 'd',
            Square::E1 => 'e',
            Square::F1 => 'f',
            Square::G1 => 'g',
            Square::H1 => 'h',
            Square::A2 => 'i',
            Square::B2 => 'j',
            Square::C2 => 'k',
            Square::D2 => 'l',
            Square::E2 => 'm',
            Square::F2 => 'n',
            Square::G2 => 'o',
            Square::H2 => 'p',
            Square::A3 => 'q',
            Square::B3 => 'r',
            Square::C3 => 's',
            Square::D3 => 't',
            Square::E3 => 'u',
            Square::F3 => 'v',
            Square::G3 => 'w',
            Square::H3 => 'x',
            Square::A4 => 'y',
            Square::B4 => 'z',
            Square::C4 => 'A',
            Square::D4 => 'B',
            Square::E4 => 'C',
            Square::F4 => 'D',
            Square::G4 => 'E',
            Square::H4 => 'F',
            Square::A5 => 'G',
            Square::B5 => 'H',
            Square::C5 => 'I',
            Square::D5 => 'J',
            Square::E5 => 'K',
            Square::F5 => 'L',
            Square::G5 => 'M',
            Square::H5 => 'N',
            Square::A6 => 'O',
            Square::B6 => 'P',
            Square::C6 => 'Q',
            Square::D6 => 'R',
            Square::E6 => 'S',
            Square::F6 => 'T',
            Square::G6 => 'U',
            Square::H6 => 'V',
            Square::A7 => 'W',
            Square::B7 => 'X',
            Square::C7 => 'Y',
            Square::D7 => 'Z',
            Square::E7 => '0',
            Square::F7 => '1',
            Square::G7 => '2',
            Square::H7 => '3',
            Square::A8 => '4',
            Square::B8 => '5',
            Square::C8 => '6',
            Square::D8 => '7',
            Square::E8 => '8',
            Square::F8 => '9',
            Square::G8 => '!',
            Square::H8 => '?',
        }
    }

    /// The square that a symbol of an encoded move list stands for, if any.
    pub open spec fn of_code(c: char) -> Option<Square> {
        match c {
            'a' => Some(Square::A1),
            'b' => Some(Square::B1),
            'c' => Some(Square::C1),
            'd' => Some(Square::D1),
            'e' => Some(Square::E1),
            'f' => Some(Square::F1),
            'g' => Some(Square::G1),
            'h' => Some(Square::H1),
            'i' => Some(Square::A2),
            'j' => Some(Square::B2),
            'k' => Some(Square::C2),
            'l' => Some(Square::D2),
            'm' => Some(Square::E2),
            'n' => Some(Square::F2),
            'o' => Some(Square::G2),
            'p' => Some(Square::H2),
            'q' => Some(Square::A3),
            'r' => Some(Square::B3),
            's' => Some(Square::C3),
            't' => Some(Square::D3),
            'u' => Some(Square::E3),
            'v' => Some(Square::F3),
            'w' => Some(Square::G3),
            'x' => Some(Square::H3),
            'y' => Some(Square::A4),
            'z' => Some(Square::B4),
            'A' => Some(Square::C4),
            'B' => Some(Square::D4),
            'C' => Some(Square::E4),
            'D' => Some(Square::F4),
            'E' => Some(Square::G4),
            'F' => Some(Square::H4),
            'G' => Some(Square::A5),
            'H' => Some(Square::B5),
            'I' => Some(Square::C5),
            'J' => Some(Square::D5),
            'K' => Some(Square::E5),
            'L' => Some(Square::F5),
            'M' => Some(Square::G5),
            'N' => Some(Square::H5),
            'O' => Some(Square::A6),
            'P' => Some(Square::B6),
            'Q' => Some(Square::C6),
            'R' => Some(Square::D6),
            'S' => Some(Square::E6),
            'T' => Some(Square::F6),
            'U' => Some(Square::G6),
            'V' => Some(Square::H6),
            'W' => Some(Square::A7),
            'X' => Some(Square::B7),
            'Y' => Some(Square::C7),
            'Z' => Some(Square::D7),
            '0' => Some(Square::E7),
            '1' => Some(Square::F7),
            '2' => Some(Square::G7),
            '3' => Some(Square::H7),
            '4' => Some(Square::A8),
            '5' => Some(Square::B8),
            '6' => Some(Square::C8),
            '7' => Some(Square::D8),
            '8' => Some(Square::E8),
            '9' => Some(Square::F8),
            '!' => Some(Square::G8),
            '?' => Some(Square::H8),
            _ => None,
        }
    }

    pub fn index(&self) -> (r: u8)
        ensures
            r as int == self.spec_index(),
    {
        match self {
            Square::A1 => 0,
            Square::B1 => 1,
            Square::C1 => 2,
            Square::D1 => 3,
            Square::E1 => 4,
            Square::F1 => 5,
            Square::G1 => 6,
            Square::H1 => 7,
            Square::A2 => 8,
            Square::B2 => 9,
            Square::C2 => 10,
            Square::D2 => 11,
            Square::E2 => 12,
            Square::F2 => 13,
            Square::G2 => 14,
            Square::H2 => 15,
            Square::A3 => 16,
            Square::B3 => 17,
            Square::C3 => 18,
            Square::D3 => 19,
            Square::E3 => 20,
            Square::F3 => 21,
            Square::G3 => 22,
            Square::H3 => 23,
            Square::A4 => 24,
            Square::B4 => 25,
            Square::C4 => 26,
            Square::D4 => 27,
            Square::E4 => 28,
            Square::F4 => 29,
            Square::G4 => 30,
            Square::H4 => 31,
            Square::A5 => 32,
            Square::B5 => 33,
            Square::C5 => 34,
            Square::D5 => 35,
            Square::E5 => 36,
            Square::F5 => 37,
            Square::G5 => 38,
            Square::H5 => 39,
            Square::A6 => 40,
            Square::B6 => 41,
            Square::C6 => 42,
            Square::D6 => 43,
            Square::E6 => 44,
            Square::F6 => 45,
            Square::G6 => 46,
            Square::H6 => 47,
            Square::A7 => 48,
            Square::B7 => 49,
            Square::C7 => 50,
            Square::D7 => 51,
            Square::E7 => 52,
            Square::F7 => 53,
            Square::G7 => 54,
            Square::H7 => 55,
            Square::A8 => 56,
            Square::B8 => 57,
            Square::C8 => 58,
            Square::D8 => 59,
            Square::E8 => 60,
            Square::F8 => 61,
            Square::G8 => 62,
            Square::H8 => 63,
        }
    }

    pub fn from_index(i: u8) -> (r: Square)
        requires
            i < 64,
        ensures
            r == Square::at(i as int),
    {
        match i {
            0 => Square::A1,
            1 => Square::B1,
            2 => Square::C1,
            3 => Square::D1,
            4 => Square::E1,
            5 => Square::F1,
            6 => Square::G1,
            7 => Square::H1,
            8 => Square::A2,
            9 => Square::B2,
            10 => Square::C2,
            11 => Square::D2,
            12 => Square::E2,
            13 => Square::F2,
            14 => Square::G2,
            15 => Square::H2,
            16 => Square::A3,
            17 => Square::B3,
            18 => Square::C3,
            19 => Square::D3,
            20 => Square::E3,
            21 => Square::F3,
            22 => Square::G3,
            23 => Square::H3,
            24 => Square::A4,
            25 => Square::B4,
            26 => Square::C4,
            27 => Square::D4,
            28 => Square::E4,
            29 => Square::F4,
            30 => Square::G4,
            31 => Square::H4,
            32 => Square::A5,
            33 => Square::B5,
            34 => Square::C5,
            35 => Square::D5,
            36 => Square::E5,
            37 => Square::F5,
            38 => Square::G5,
            39 => Square::H5,
            40 => Square::A6,
            41 => Square::B6,
            42 => Square::C6,
            43 => Square::D6,
            44 => Square::E6,
            45 => Square::F6,
            46 => Square::G6,
            47 => Square::H6,
            48 => Square::A7,
            49 => Square::B7,
            50 => Square::C7,
            51 => Square::D7,
            52 => Square::E7,
            53 => Square::F7,
            54 => Square::G7,
            55 => Square::H7,
            56 => Square::A8,
            57 => Square::B8,
            58 => Square::C8,
            59 => Square::D8,
            60 => Square::E8,
            61 => Square::F8,
            62 => Square::G8,
            _ => Square::H8,
        }
    }

    /// The symbol of the square in an encoded move list.
    pub fn code(&self) -> (r: char)
        ensures
            r == self.spec_code(),
    {
        match self {
            Square::A1 => 'a',
            Square::B1 => 'b',
            Square::C1 => 'c',
            Square::D1 => 'd',
            Square::E1 => 'e',
            Square::F1 => 'f',
            Square::G1 => 'g',
            Square::H1 => 'h',
            Square::A2 => 'i',
            Square::B2 => 'j',
            Square::C2 => 'k',
            Square::D2 => 'l',
            Square::E2 => 'm',
            Square::F2 => 'n',
            Square::G2 => 'o',
            Square::H2 => 'p',
            Square::A3 => 'q',
            Square::B3 => 'r',
            Square::C3 => 's',
            Square::D3 => 't',
            Square::E3 => 'u',
            Square::F3 => 'v',
            Square::G3 => 'w',
            Square::H3 => 'x',
            Square::A4 => 'y',
            Square::B4 => 'z',
            Square::C4 => 'A',
            Square::D4 => 'B',
            Square::E4 => 'C',
            Square::F4 => 'D',
            Square::G4 => 'E',
            Square::H4 => 'F',
            Square::A5 => 'G',
            Square::B5 => 'H',
            Square::C5 => 'I',
            Square::D5 => 'J',
            Square::E5 => 'K',
            Square::F5 => 'L',
            Square::G5 => 'M',
            Square::H5 => 'N',
            Square::A6 => 'O',
            Square::B6 => 'P',
            Square::C6 => 'Q',
            Square::D6 => 'R',
            Square::E6 => 'S',
            Square::F6 => 'T',
            Square::G6 => 'U',
            Square::H6 => 'V',
            Square::A7 => 'W',
            Square::B7 => 'X',
            Square::C7 => 'Y',
            Square::D7 => 'Z',
            Square::E7 => '0',
            Square::F7 => '1',
            Square::G7 => '2',
            Square::H7 => '3',
            Square::A8 => '4',
            Square::B8 => '5',
            Square::C8 => '6',
            Square::D8 => '7',
            Square::E8 => '8',
            Square::F8 => '9',
            Square::G8 => '!',
            Square::H8 => '?',
        }
    }

    /// Reads one symbol of an encoded move list as a square.
    pub fn from_code(c: char) -> (r: Option<Square>)
        ensures
            r == Square::of_code(c),
    {
        match c {
            'a' => Some(Square::A1),
            'b' => Some(Square::B1),
            'c' => Some(Square::C1),
            'd' => Some(Square::D1),
            'e' => Some(Square::E1),
            'f' => Some(Square::F1),
            'g' => Some(Square::G1),
            'h' => Some(Square::H1),
            'i' => Some(Square::A2),
            'j' => Some(Square::B2),
            'k' => Some(Square::C2),
            'l' => Some(Square::D2),
            'm' => Some(Square::E2),
            'n' => Some(Square::F2),
            'o' => Some(Square::G2),
            'p' => Some(Square::H2),
            'q' => Some(Square::A3),
            'r' => Some(Square::B3),
            's' => Some(Square::C3),
            't' => Some(Square::D3),
            'u' => Some(Square::E3),
            'v' => Some(Square::F3),
            'w' => Some(Square::G3),
            'x' => Some(Square::H3),
            'y' => Some(Square::A4),
            'z' => Some(Square::B4),
            'A' => Some(Square::C4),
            'B' => Some(Square::D4),
            'C' => Some(Square::E4),
            'D' => Some(Square::F4),
            'E' => Some(Square::G4),
            'F' => Some(Square::H4),
            'G' => Some(Square::A5),
            'H' => Some(Square::B5),
            'I' => Some(Square::C5),
            'J' => Some(Square::D5),
            'K' => Some(Square::E5),
            'L' => Some(Square::F5),
            'M' => Some(Square::G5),
            'N' => Some(Square::H5),
            'O' => Some(Square::A6),
            'P' => Some(Square::B6),
            'Q' => Some(Square::C6),
            'R' => Some(Square::D6),
            'S' => Some(Square::E6),
            'T' => Some(Square::F6),
            'U' => Some(Square::G6),
            'V' => Some(Square::H6),
            'W' => Some(Square::A7),
            'X' => Some(Square::B7),
            'Y' => Some(Square::C7),
            'Z' => Some(Square::D7),
            '0' => Some(Square::E7),
            '1' => Some(Square::F7),
            '2' => Some(Square::G7),
            '3' => Some(Square::H7),
            '4' => Some(Square::A8),
            '5' => Some(Square::B8),
            '6' => Some(Square::C8),
            '7' => Some(Square::D8),
            '8' => Some(Square::E8),
            '9' => Some(Square::F8),
            '!' => Some(Square::G8),
            '?' => Some(Square::H8),
            _ => None,
        }
    }
}

/// Every square has a position in `0..64`, and the position gives the square back.
pub broadcast proof fn lemma_square_index(s: Square)
    ensures
        0 <= #[trigger] s.spec_index() < 64,
        Square::at(s.spec_index()) == s,
{
}

/// The square at a position in `0..64` has that position.
pub broadcast proof fn lemma_index_at(i: int)
    requires
        0 <= i < 64,
    ensures
        (#[trigger] Square::at(i)).spec_index() == i,
{
}

/// The symbol of a square reads back as that square, and a symbol that reads as a
/// square is that square's symbol.
pub broadcast proof fn lemma_square_code(s: Square)
    ensures
        Square::of_code(#[trigger] s.spec_code()) == Some(s),
{
}

pub broadcast proof fn lemma_code_square(c: char)
    ensures
        (#[trigger] Square::of_code(c)) matches Some(s) ==> s.spec_code() == c,
{
}

/// The digit of a rank, 0 standing for the first rank.
pub open spec fn rank_digit(r: int) -> Seq<char> {
    if r == 0 {
        "1"@
    } else if r == 1 {
        "2"@
    } else if r == 2 {
        "3"@
    } else if r == 3 {
        "4"@
    } else if r == 4 {
        "5"@
    } else if r == 5 {
        "6"@
    } else if r == 6 {
        "7"@
    } else {
        "8"@
    }
}

fn rank_name(r: u8) -> (s: &'static str)
    requires
        r < 8,
    ensures
        s@ == rank_digit(r as int),
{
    match r {
        0 => "1",
        1 => "2",
        2 => "3",
        3 => "4",
        4 => "5",
        5 => "6",
        6 => "7",
        _ => "8",
    }
}

impl Square {
    /// The algebraic name of the square, such as `e4`.
    pub open spec fn spec_name(self) -> Seq<char> {
        File::at(self.spec_index() % 8).letter() + rank_digit(self.spec_index() / 8)
    }

    pub fn name(&self) -> (r: String)
        ensures
            r@ == self.spec_name(),
    {
        let i = self.index();
        let file = File::from_index(i % 8);
        String::from_str(file.name()).concat(rank_name(i / 8))
    }
}

/// A failure of the board engine. Either one ends the replay of the game.
#[derive(Clone, Copy, Debug, PartialEq, Eq, Hash, Structural)]
pub enum Error {
    /// The square was expected to hold a piece and held none.
    PieceNotFound(Square),
    /// The pawn to be taken en passant was not on its square.
    EnPassantPieceNotFound(Square),
}

/// What one ply did: the piece that moved, where from and where to, and the
/// piece that it took, if any.
#[derive(Clone, Copy, Debug, PartialEq, Eq, Hash, Structural)]
pub struct Ply {
    pub mover: Piece,
    pub start: Square,
    pub end: Square,
    pub captured: Option<Piece>,
}

/// The material value taken by a ply: that of the captured piece, 0 if none.
pub open spec fn captured_value(c: Option<Piece>) -> int {
    match c {
        Some(p) => p.spec_value(),
        None => 0,
    }
}

impl Ply {
    pub open spec fn spec_score(self) -> int {
        captured_value(self.captured)
    }

    pub fn score(&self) -> (r: i32)
        requires
            self.captured matches Some(p) ==> 0 <= p.spec_value() <= 9,
        ensures
            r as int == self.spec_score(),
    {
        match self.captured {
            Some(p) => p.value(),
            None => 0,
        }
    }
}

/// The state of a game in progress: the piece on each of the 64 squares, and the
/// last ply applied (its mover, origin and destination), which en passant needs.
pub ghost struct Position {
    pub squares: Seq<Option<Piece>>,
    pub last_move: Option<(Piece, Square, Square)>,
}

/// The kind of piece that stands on a file of either back rank at the start.
pub open spec fn back_rank_kind(f: int) -> PieceType {
    if f == 0 || f == 7 {
        PieceType::Rook
    } else if f == 1 || f == 6 {
        PieceType::Knight
    } else if f == 2 || f == 5 {
        PieceType::Bishop
    } else if f == 3 {
        PieceType::Queen
    } else {
        PieceType::King
    }
}

/// The piece on the square at position `i` in the starting position.
pub open spec fn start_piece(i: int) -> Option<Piece> {
    let file = File::at(i % 8);
    if 0 <= i < 8 {
        Some(Piece { piece_type: back_rank_kind(i % 8), color: Color::White, file, promoted_value: None })
    } else if 8 <= i < 16 {
        Some(Piece { piece_type: PieceType::Pawn, color: Color::White, file, promoted_value: None })
    } else if 48 <= i < 56 {
        Some(Piece { piece_type: PieceType::Pawn, color: Color::Black, file, promoted_value: None })
    } else if 56 <= i < 64 {
        Some(Piece { piece_type: back_rank_kind(i % 8), color: Color::Black, file, promoted_value: None })
    } else {
        None
    }
}

pub open spec fn starting_position() -> Position {
    Position { squares: Seq::new(64, |i: int| start_piece(i)), last_move: None }
}

/// A piece that may stand on the board: one of the 32 starting identities, with a
/// value between 0 and 9.
pub open spec fn piece_ok(p: Piece) -> bool {
    p.is_starting_slot() && 0 <= p.spec_value() <= 9
}

pub open spec fn position_ok(p: Position) -> bool {
    &&& p.squares.len() == 64
    &&& forall|i: int| 0 <= i < 64 && (#[trigger] p.squares[i]) is Some ==> piece_ok(p.squares[i]->0)
}

/// The double step that a pawn capture from `start` to `end` takes en passant, as
/// (origin, destination) of the other side's pawn. A white pawn on the fifth rank
/// takes one that went from the seventh to the fifth; a black pawn on the fourth
/// rank takes one that went from the second to the fourth.
pub open spec fn en_passant_prior(start: Square, end: Square) -> Option<(Square, Square)> {
    let s = start.spec_index();
    let e = end.spec_index();
    if 32 <= s < 40 && ((e == s + 7 && s % 8 != 0) || (e == s + 9 && s % 8 != 7)) {
        Some((Square::at(e + 8), Square::at(e - 8)))
    } else if 24 <= s < 32 && ((e == s - 9 && s % 8 != 0) || (e == s - 7 && s % 8 != 7)) {
        Some((Square::at(e - 8), Square::at(e + 8)))
    } else {
        None
    }
}

/// The rook's origin and destination for a king move that castles.
pub open spec fn castle_rook(start: Square, end: Square) -> Option<(Square, Square)> {
    if start == Square::E1 && end == Square::G1 {
        Some((Square::H1, Square::F1))
    } else if start == Square::E1 && end == Square::C1 {
        Some((Square::A1, Square::D1))
    } else if start == Square::E8 && end == Square::G8 {
        Some((Square::H8, Square::F8))
    } else if start == Square::E8 && end == Square::C8 {
        Some((Square::A8, Square::D8))
    } else {
        None
    }
}

/// Whether a ply of `mover` from `start` to an empty `end` takes en passant: the
/// last ply was the matching double step of a pawn. `rest` is the board with the
/// mover already lifted.
pub open spec fn is_en_passant(
    last_move: Option<(Piece, Square, Square)>,
    mover: Piece,
    start: Square,
    end: Square,
    rest: Seq<Option<Piece>>,
) -> bool {
    &&& mover.is_pawn()
    &&& rest[end.spec_index()] is None
    &&& last_move matches Some((prior, from, to))
    &&& prior.is_pawn()
    &&& en_passant_prior(start, end) == Some((from, to))
}

/// Whether a ply of `mover` from `start` to `end` castles.
pub open spec fn is_castle(mover: Piece, start: Square, end: Square) -> bool {
    mover.piece_type == PieceType::King && castle_rook(start, end) is Some
}

/// One ply applied to a position, in this order: a promotion, an en passant
/// capture, a castle, or else a plain move that takes what stands on `end`.
/// `promotion` is the kind a pawn promotes to, `end` then being the square it
/// promotes on.
///
/// A castle moves the rook onto its square whatever stands there: in a legal
/// game that square is empty, and a piece found there would leave the board
/// without being recorded as captured.
pub open spec fn step(p: Position, start: Square, end: Square, promotion: Option<PieceType>) -> Result<(Position, Ply), Error> {
    let s = start.spec_index();
    let e = end.spec_index();
    match p.squares[s] {
        None => Err(Error::PieceNotFound(start)),
        Some(mover) => {
            let rest = p.squares.update(s, None);
            let last_move = Some((mover, start, end));
            let taken = rest[e];
            match promotion {
                Some(k) => Ok((
                    Position { squares: rest.update(e, Some(mover.promoted(k))), last_move },
                    Ply { mover, start, end, captured: taken },
                )),
                None => if is_en_passant(p.last_move, mover, start, end, rest) {
                    let victim = (p.last_move->0).2;
                    match rest[victim.spec_index()] {
                        None => Err(Error::EnPassantPieceNotFound(victim)),
                        Some(v) => Ok((
                            Position {
                                squares: rest.update(victim.spec_index(), None).update(e, Some(mover)),
                                last_move,
                            },
                            Ply { mover, start, end, captured: Some(v) },
                        )),
                    }
                } else if is_castle(mover, start, end) {
                    let (rook_from, rook_to) = castle_rook(start, end)->0;
                    let placed = rest.update(e, Some(mover));
                    match placed[rook_from.spec_index()] {
                        None => Err(Error::PieceNotFound(rook_from)),
                        Some(rook) => Ok((
                            Position {
                                squares: placed.update(rook_from.spec_index(), None).update(
                                    rook_to.spec_index(),
                                    Some(rook),
                                ),
                                last_move,
                            },
                            Ply { mover, start, end, captured: taken },
                        )),
                    }
                } else {
                    Ok((
                        Position { squares: rest.update(e, Some(mover)), last_move },
                        Ply { mover, start, end, captured: taken },
                    ))
                },
            }
        },
    }
}

/// The record of a ply, the `n`-th of its game.
pub open spec fn record_of(n: int, ply: Ply) -> db::MoveRecord {
    db::MoveRecord {
        move_num: n,
        color: crate::analysis::color_word(ply.mover.color),
        moved_piece: ply.mover.spec_label(),
        starting_location: ply.start.spec_name(),
        ending_location: ply.end.spec_name(),
        captured_piece: match ply.captured {
            Some(c) => c.spec_label(),
            None => Seq::empty(),
        },
        capture_score: ply.spec_score(),
    }
}

/// The piece on the square at position `i` at the start of a game.
fn starting_piece(i: u8) -> (r: Option<Piece>)
    requires
        i < 64,
    ensures
        r == start_piece(i as int),
{
    let file = File::from_index(i % 8);
    let back = if i % 8 == 0 || i % 8 == 7 {
        PieceType::Rook
    } else if i % 8 == 1 || i % 8 == 6 {
        PieceType::Knight
    } else if i % 8 == 2 || i % 8 == 5 {
        PieceType::Bishop
    } else if i % 8 == 3 {
        PieceType::Queen
    } else {
        PieceType::King
    };
    if i < 8 {
        Some(Piece::new(back, Color::White, file))
    } else if i < 16 {
        Some(Piece::new(PieceType::Pawn, Color::White, file))
    } else if 48 <= i && i < 56 {
        Some(Piece::new(PieceType::Pawn, Color::Black, file))
    } else if 56 <= i {
        Some(Piece::new(back, Color::Black, file))
    } else {
        None
    }
}

fn en_passant_prior_exec(start: Square, end: Square) -> (r: Option<(Square, Square)>)
    ensures
        r == en_passant_prior(start, end),
{
    let s = start.index();
    let e = end.index();
    if 32 <= s && s < 40 && ((e == s + 7 && s % 8 != 0) || (e == s + 9 && s % 8 != 7)) {
        Some((Square::from_index(e + 8), Square::from_index(e - 8)))
    } else if 24 <= s && s < 32 && ((e + 9 == s && s % 8 != 0) || (e + 7 == s && s % 8 != 7)) {
        Some((Square::from_index(e - 8), Square::from_index(e + 8)))
    } else {
        None
    }
}

fn castle_rook_exec(start: Square, end: Square) -> (r: Option<(Square, Square)>)
    ensures
        r == castle_rook(start, end),
{
    if start == Square::E1 && end == Square::G1 {
        Some((Square::H1, Square::F1))
    } else if start == Square::E1 && end == Square::C1 {
        Some((Square::A1, Square::D1))
    } else if start == Square::E8 && end == Square::G8 {
        Some((Square::H8, Square::F8))
    } else if start == Square::E8 && end == Square::C8 {
        Some((Square::A8, Square::D8))
    } else {
        None
    }
}

/// A ply keeps every piece on the board a valid one, and the pieces it names come
/// from the board it was applied to.
pub proof fn lemma_step_ok(p: Position, start: Square, end: Square, promotion: Option<PieceType>)
    requires
        position_ok(p),
    ensures
        step(p, start, end, promotion) matches Ok((q, ply)) ==> {
            &&& position_ok(q)
            &&& piece_ok(ply.mover)
            &&& ply.captured matches Some(c) ==> piece_ok(c)
        },
{
    broadcast use lemma_square_index;
    if let Ok((q, ply)) = step(p, start, end, promotion) {
        assert(p.squares[start.spec_index()] is Some);
        if let Some(k) = promotion {
            assert(0 <= kind_value(k) <= 9);
        }
        assert forall|i: int| 0 <= i < 64 && (#[trigger] q.squares[i]) is Some implies piece_ok(q.squares[i]->0) by {
            if let Some(k) = promotion {
                assert(0 <= kind_value(k) <= 9);
            }
        }
    }
}

/// The number of occupied squares.
pub open spec fn occupied(sq: Seq<Option<Piece>>) -> int
    decreases sq.len(),
{
    if sq.len() == 0 {
        0
    } else {
        occupied(sq.drop_last()) + if sq.last() is Some {
            1int
        } else {
            0int
        }
    }
}

pub proof fn lemma_occupied_bounds(sq: Seq<Option<Piece>>)
    ensures
        0 <= occupied(sq) <= sq.len(),
    decreases sq.len(),
{
    if sq.len() > 0 {
        lemma_occupied_bounds(sq.drop_last());
    }
}

proof fn lemma_occupied_update(sq: Seq<Option<Piece>>, i: int, v: Option<Piece>)
    requires
        0 <= i < sq.len(),
    ensures
        occupied(sq.update(i, v)) == occupied(sq) - (if sq[i] is Some {
            1int
        } else {
            0int
        }) + (if v is Some {
            1int
        } else {
            0int
        }),
    decreases sq.len(),
{
    if i == sq.len() - 1 {
        assert(sq.update(i, v).drop_last() =~= sq.drop_last());
    } else {
        lemma_occupied_update(sq.drop_last(), i, v);
        assert(sq.update(i, v).drop_last() =~= sq.drop_last().update(i, v));
    }
}

/// A ply never adds a piece to the board, and a ply that captures removes one.
pub proof fn lemma_step_occupied(p: Position, start: Square, end: Square, promotion: Option<PieceType>)
    requires
        position_ok(p),
    ensures
        step(p, start, end, promotion) matches Ok((q, ply)) ==> occupied(q.squares) + (if ply.captured is Some {
            1int
        } else {
            0int
        }) <= occupied(p.squares),
{
    broadcast use lemma_square_index;
    if let Ok((q, ply)) = step(p, start, end, promotion) {
        let s = start.spec_index();
        let e = end.spec_index();
        let rest = p.squares.update(s, None);
        lemma_occupied_update(p.squares, s, None);
        let mover = p.squares[s]->0;
        if let Some(k) = promotion {
            lemma_occupied_update(rest, e, Some(mover.promoted(k)));
        } else if is_en_passant(p.last_move, mover, start, end, rest) {
            let victim = (p.last_move->0).2.spec_index();
            let gone = rest.update(victim, None);
            lemma_occupied_update(rest, victim, None);
            lemma_occupied_update(gone, e, Some(mover));
        } else if is_castle(mover, start, end) {
            let (rook_from, rook_to) = castle_rook(start, end)->0;
            let placed = rest.update(e, Some(mover));
            lemma_occupied_update(rest, e, Some(mover));
            let lifted = placed.update(rook_from.spec_index(), None);
            lemma_occupied_update(placed, rook_from.spec_index(), None);
            lemma_occupied_update(lifted, rook_to.spec_index(), placed[rook_from.spec_index()]);
        } else {
            lemma_occupied_update(rest, e, Some(mover));
        }
    }
}

/// A ply that neither promotes nor captures keeps the number of pieces on the
/// board, and puts the mover, identity and value unchanged, on its destination.
/// For a castle this holds where the rook's destination is free.
pub proof fn lemma_quiet_ply(p: Position, start: Square, end: Square, q: Position, ply: Ply)
    requires
        position_ok(p),
        step(p, start, end, None) == Ok::<(Position, Ply), Error>((q, ply)),
        ply.captured is None,
        is_castle(ply.mover, start, end) ==> p.squares[(castle_rook(start, end)->0).1.spec_index()] is None,
    ensures
        occupied(q.squares) == occupied(p.squares),
        p.squares[start.spec_index()] == Some(ply.mover),
        q.squares[end.spec_index()] == Some(ply.mover),
{
    broadcast use lemma_square_index;
    let s = start.spec_index();
    let e = end.spec_index();
    let rest = p.squares.update(s, None);
    let mover = ply.mover;
    lemma_occupied_update(p.squares, s, None);
    assert(!is_en_passant(p.last_move, mover, start, end, rest));
    if is_castle(mover, start, end) {
        let (rook_from, rook_to) = castle_rook(start, end)->0;
        let placed = rest.update(e, Some(mover));
        lemma_occupied_update(rest, e, Some(mover));
        let lifted = placed.update(rook_from.spec_index(), None);
        lemma_occupied_update(placed, rook_from.spec_index(), None);
        lemma_occupied_update(lifted, rook_to.spec_index(), placed[rook_from.spec_index()]);
    } else {
        lemma_occupied_update(rest, e, Some(mover));
    }
}

/// Only a promotion changes a piece: after any other ply, every piece on the
/// board stood before it, with the same identity and value, on some square.
pub proof fn lemma_only_promotion_changes_pieces(p: Position, start: Square, end: Square, q: Position, ply: Ply)
    requires
        position_ok(p),
        step(p, start, end, None) == Ok::<(Position, Ply), Error>((q, ply)),
    ensures
        forall|i: int|
            0 <= i < 64 && (#[trigger] q.squares[i]) is Some ==> exists|j: int| 0 <= j < 64 && p.squares[j] == q.squares[i],
{
    broadcast use lemma_square_index;
    let s = start.spec_index();
    let e = end.spec_index();
    assert forall|i: int| 0 <= i < 64 && (#[trigger] q.squares[i]) is Some implies exists|j: int|
        0 <= j < 64 && p.squares[j] == q.squares[i] by {
        if q.squares[i] == p.squares[i] {
        } else if i == e {
            assert(p.squares[s] == q.squares[i]);
        } else {
            let (rook_from, rook_to) = castle_rook(start, end)->0;
            assert(p.squares[rook_from.spec_index()] == q.squares[i]);
        }
    }
}

/// A promotion keeps the piece's kind, color and starting file; only its value
/// changes, to that of the kind it promotes to.
pub proof fn lemma_promotion_keeps_identity(p: Position, start: Square, end: Square, k: PieceType, q: Position, ply: Ply)
    requires
        position_ok(p),
        step(p, start, end, Some(k)) == Ok::<(Position, Ply), Error>((q, ply)),
    ensures
        p.squares[start.spec_index()] == Some(ply.mover),
        q.squares[end.spec_index()] matches Some(promoted) && {
            &&& promoted.piece_type == ply.mover.piece_type
            &&& promoted.color == ply.mover.color
            &&& promoted.file == ply.mover.file
            &&& promoted.spec_value() == kind_value(k)
        },
{
    broadcast use lemma_square_index;
    assert(0 <= kind_value(k) <= 9);
}

/// A castle moves exactly two pieces, the king and its rook, and captures
/// nothing. This holds where the king's and the rook's destinations are free.
pub proof fn lemma_castle(p: Position, start: Square, end: Square, q: Position, ply: Ply)
    requires
        position_ok(p),
        step(p, start, end, None) == Ok::<(Position, Ply), Error>((q, ply)),
        is_castle(ply.mover, start, end),
        p.squares[end.spec_index()] is None,
        p.squares[(castle_rook(start, end)->0).1.spec_index()] is None,
    ensures
        ply.captured is None,
        ({
            let (rook_from, rook_to) = castle_rook(start, end)->0;
            &&& p.squares[rook_from.spec_index()] is Some
            &&& q.squares[start.spec_index()] is None
            &&& q.squares[end.spec_index()] == Some(ply.mover)
            &&& q.squares[rook_from.spec_index()] is None
            &&& q.squares[rook_to.spec_index()] == p.squares[rook_from.spec_index()]
            &&& forall|i: int|
                0 <= i < 64 && i != start.spec_index() && i != end.spec_index() && i != rook_from.spec_index()
                    && i != rook_to.spec_index() ==> q.squares[i] == p.squares[i]
        }),
        occupied(q.squares) == occupied(p.squares),
{
    broadcast use lemma_square_index;
    lemma_quiet_ply(p, start, end, q, ply);
}

/// A plain move, neither promotion nor en passant nor castle, changes only its
/// origin and its destination, and takes what stood on the destination.
pub proof fn lemma_plain_move(p: Position, start: Square, end: Square, q: Position, ply: Ply)
    requires
        position_ok(p),
        step(p, start, end, None) == Ok::<(Position, Ply), Error>((q, ply)),
        !is_en_passant(p.last_move, ply.mover, start, end, p.squares.update(start.spec_index(), None)),
        !is_castle(ply.mover, start, end),
    ensures
        p.squares[start.spec_index()] == Some(ply.mover),
        q.squares[end.spec_index()] == Some(ply.mover),
        start != end ==> q.squares[start.spec_index()] is None && ply.captured == p.squares[end.spec_index()],
        start == end ==> ply.captured is None,
        forall|i: int|
            0 <= i < 64 && i != start.spec_index() && i != end.spec_index() ==> #[trigger] q.squares[i] == p.squares[i],
{
    broadcast use lemma_square_index;
}

/// Whether a ply from `from` to `to` is a pawn's double step from its starting rank.
pub open spec fn is_double_step(from: Square, to: Square) -> bool {
    let f = from.spec_index();
    let t = to.spec_index();
    (8 <= f < 16 && t == f + 16) || (48 <= f < 56 && t == f - 16)
}

/// En passant takes a piece off a square other than the destination, and only
/// right after the matching double step of a pawn beside the capturing pawn;
/// without it, a ply takes what stands on its destination.
pub proof fn lemma_en_passant(p: Position, start: Square, end: Square, q: Position, ply: Ply)
    requires
        position_ok(p),
        step(p, start, end, None) == Ok::<(Position, Ply), Error>((q, ply)),
    ensures
        is_en_passant(p.last_move, ply.mover, start, end, p.squares.update(start.spec_index(), None)) ==> {
            let (prior, from, to) = p.last_move->0;
            &&& prior.is_pawn()
            &&& is_double_step(from, to)
            &&& to != end
            &&& to.spec_index() == start.spec_index() + 1 || to.spec_index() == start.spec_index() - 1
            &&& p.squares[end.spec_index()] is None
            &&& ply.captured == p.squares[to.spec_index()]
            &&& ply.captured is Some
            &&& q.squares[to.spec_index()] is None
            &&& q.squares[end.spec_index()] == Some(ply.mover)
            &&& p.squares[start.spec_index()] == Some(ply.mover)
            &&& ply.mover.is_pawn()
            &&& occupied(q.squares) == occupied(p.squares) - 1
        },
        !is_en_passant(p.last_move, ply.mover, start, end, p.squares.update(start.spec_index(), None)) ==> ply.captured
            == p.squares.update(start.spec_index(), None)[end.spec_index()],
{
    broadcast use lemma_square_index, lemma_index_at;
    let rest = p.squares.update(start.spec_index(), None);
    if is_en_passant(p.last_move, ply.mover, start, end, rest) {
        let victim = (p.last_move->0).2.spec_index();
        let gone = rest.update(victim, None);
        lemma_occupied_update(p.squares, start.spec_index(), None);
        lemma_occupied_update(rest, victim, None);
        lemma_occupied_update(gone, end.spec_index(), Some(ply.mover));
    }
}

/// A game in progress: the pieces on the board, the last ply, and how many plies
/// have been recorded.
#[derive(Clone)]
pub struct Board {
    squares: Vec<Option<Piece>>,
    last_move: Option<(Piece, Square, Square)>,
    move_num: i32,
}

impl View for Board {
    type V = Position;

    closed spec fn view(&self) -> Position {
        Position { squares: self.squares@, last_move: self.last_move }
    }
}

impl Board {
    /// The number of plies recorded by `make_move`.
    pub closed spec fn moves_made(&self) -> int {
        self.move_num as int
    }

    pub open spec fn wf(&self) -> bool {
        &&& position_ok(self@)
        &&& self.moves_made() >= 0
    }

    pub fn starting() -> (r: Board)
        ensures
            r.wf(),
            r@ == starting_position(),
            r.moves_made() == 0,
    {
        let mut squares: Vec<Option<Piece>> = Vec::new();
        let mut i: u8 = 0;
        while i < 64
            invariant
                i <= 64,
                squares@.len() == i,
                forall|j: int| 0 <= j < i ==> squares@[j] == start_piece(j),
            decreases 64 - i,
        {
            squares.push(starting_piece(i));
            i = i + 1;
        }
        let b = Board { squares, last_move: None, move_num: 0 };
        assert(b@.squares =~= starting_position().squares);
        b
    }

    /// A copy of the game in progress.
    pub fn copy(&self) -> (r: Board)
        requires
            self.wf(),
        ensures
            r.wf(),
            r@ == self@,
            r.moves_made() == self.moves_made(),
    {
        let mut squares: Vec<Option<Piece>> = Vec::new();
        let mut i: usize = 0;
        while i < 64
            invariant
                self.wf(),
                i <= 64,
                squares@.len() == i,
                forall|j: int| 0 <= j < i ==> squares@[j] == self.squares@[j],
            decreases 64 - i,
        {
            squares.push(self.squares[i]);
            i = i + 1;
        }
        let r = Board { squares, last_move: self.last_move, move_num: self.move_num };
        assert(r@.squares =~= self@.squares);
        r
    }

    /// The piece on a square.
    pub fn piece_at(&self, square: Square) -> (r: Option<Piece>)
        requires
            self.wf(),
        ensures
            r == self@.squares[square.spec_index()],
    {
        broadcast use lemma_square_index;
        self.squares[square.index() as usize]
    }

    /// Applies one ply. On an error the board is left as it was.
    pub fn apply(&mut self, start: Square, end: Square, promotion: Option<PieceType>) -> (r: Result<Ply, Error>)
        requires
            old(self).wf(),
        ensures
            final(self).wf(),
            final(self).moves_made() == old(self).moves_made(),
            match step(old(self)@, start, end, promotion) {
                Ok((p, ply)) => r == Ok::<Ply, Error>(ply) && final(self)@ == p,
                Err(e) => r == Err::<Ply, Error>(e) && final(self)@ == old(self)@,
            },
    {
        broadcast use lemma_square_index;
        let s = start.index() as usize;
        let e = end.index() as usize;
        let mover = match self.squares[s] {
            None => return Err(Error::PieceNotFound(start)),
            Some(m) => m,
        };
        let ghost rest = self.squares@.update(s as int, None);
        let taken = if s == e {
            None
        } else {
            self.squares[e]
        };
        assert(taken == rest[e as int]);
        if let Some(k) = promotion {
            self.squares.set(s, None);
            self.squares.set(e, Some(mover.with_promotion(&k)));
            self.last_move = Some((mover, start, end));
            return Ok(Ply { mover, start, end, captured: taken });
        }
        if let Some((prior, from, to)) = self.last_move {
            if mover.is_pawn_exec() && prior.is_pawn_exec() && taken.is_none() {
                if let Some((want_from, want_to)) = en_passant_prior_exec(start, end) {
                    if want_from == from && want_to == to {
                        let v = to.index() as usize;
                        let victim = if v == s {
                            None
                        } else {
                            self.squares[v]
                        };
                        assert(victim == rest[v as int]);
                        match victim {
                            None => return Err(Error::EnPassantPieceNotFound(to)),
                            Some(vp) => {
                                self.squares.set(s, None);
                                self.squares.set(v, None);
                                self.squares.set(e, Some(mover));
                                self.last_move = Some((mover, start, end));
                                return Ok(Ply { mover, start, end, captured: Some(vp) });
                            },
                        }
                    }
                }
            }
        }
        if mover.piece_type == PieceType::King {
            if let Some((rook_from, rook_to)) = castle_rook_exec(start, end) {
                let rf = rook_from.index() as usize;
                let rt = rook_to.index() as usize;
                let rook = match self.squares[rf] {
                    None => return Err(Error::PieceNotFound(rook_from)),
                    Some(p) => p,
                };
                self.squares.set(s, None);
                self.squares.set(e, Some(mover));
                self.squares.set(rf, None);
                self.squares.set(rt, Some(rook));
                self.last_move = Some((mover, start, end));
                return Ok(Ply { mover, start, end, captured: taken });
            }
        }
        self.squares.set(s, None);
        self.squares.set(e, Some(mover));
        self.last_move = Some((mover, start, end));
        Ok(Ply { mover, start, end, captured: taken })
    }

    /// Applies one ply and returns its record, numbered from 1 in the order of play.
    /// On an error the board is left as it was.
    pub fn make_move(&mut self, start: &Square, end: &Square, promotion: Option<PieceType>) -> (r: Result<db::Move, Error>)
        requires
            old(self).wf(),
            old(self).moves_made() < i32::MAX,
        ensures
            final(self).wf(),
            match step(old(self)@, *start, *end, promotion) {
                Ok((p, ply)) => {
                    &&& final(self)@ == p
                    &&& final(self).moves_made() == old(self).moves_made() + 1
                    &&& r matches Ok(m) && m@ == record_of(final(self).moves_made(), ply)
                },
                Err(e) => {
                    &&& r == Err::<db::Move, Error>(e)
                    &&& final(self)@ == old(self)@
                    &&& final(self).moves_made() == old(self).moves_made()
                },
            },
    {
        let ply = self.apply(*start, *end, promotion);
        match ply {
            Err(e) => Err(e),
            Ok(ply) => {
                self.move_num = self.move_num + 1;
                Ok(db::Move::of_ply(self.move_num, &ply))
            },
        }
    }
}

} // verus!
