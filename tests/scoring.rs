use fantasy_chess::analysis::{score_game, Color, Error, File, Piece, PieceType};
use fantasy_chess::api;

fn strip_space(s: &str) -> String {
    s.chars().filter(|c| !c.is_whitespace()).collect()
}

#[test]
fn test_score_game_simple() {
    let game_7545694171 = api::Game {
        move_list: strip_space(
            r#"
mC 0K
bs 1L
lt !T
gv 9I
sy 70
cM 8!
iq ZJ
jz IP
tB 3V
MT 9T
BK TQ
fH QU
eg 6S
ks WG
vB PB
dc 4W
cd W4
dB 0M
ad Mo
"#,
        ),
    };
    let score = score_game(&game_7545694171);
    assert!(score.is_ok());
    let score = score.unwrap();
    assert_eq!(Some(3), score.get(&Piece::new(PieceType::Bishop, Color::White, File::C)));
    assert_eq!(Some(3), score.get(&Piece::new(PieceType::Rook, Color::Black, File::H)));
    assert_eq!(Some(1), score.get(&Piece::new(PieceType::Pawn, Color::White, File::D)));
    assert_eq!(Some(3), score.get(&Piece::new(PieceType::Bishop, Color::Black, File::F)));
    assert_eq!(Some(3), score.get(&Piece::new(PieceType::Queen, Color::White, File::D)));
    assert_eq!(Some(1), score.get(&Piece::new(PieceType::Queen, Color::Black, File::D)));
}

#[test]
fn test_score_game_en_passant_white_promote_queen() {
    let game_9695070671 = api::Game {
        move_list: strip_space(
            r#"
mC 0K
lB 3N
BJ YI
JQ XH
fH WG
gv ZJ
bs 1L
cD 2M
dl 6S
eg 5Q
Hy 7Z
ae 86
CJ SJ
eK 9I
vM In
gn !T
lJ TJ
sH JD
jz ZB
nw Bt
fv tv
wv 7t
vD QB
HB tu
KI 67
Du ?8
BS 70
zG 87
GO 7d
kA LD
uD df
DK fT
OW TS
MS NF
W~ 01
49 1U
9T UN
TM
"#,
        ),
    };
    let score = score_game(&game_9695070671);
    assert!(matches!(score, Ok(_)), "score_game returned {:?}", score.is_ok());
    let score = score.unwrap();
    assert_eq!(Some(1), score.get(&Piece::new(PieceType::Pawn, Color::White, File::B)));
    assert_eq!(Some(1), score.get(&Piece::new(PieceType::Pawn, Color::White, File::D)));
    assert_eq!(Some(1), score.get(&Piece::new(PieceType::Pawn, Color::White, File::E)));
    assert_eq!(Some(1), score.get(&Piece::new(PieceType::Bishop, Color::White, File::F)));
    assert_eq!(Some(3), score.get(&Piece::new(PieceType::Knight, Color::White, File::B)));
    assert_eq!(Some(6), score.get(&Piece::new(PieceType::Knight, Color::White, File::G)));
    assert_eq!(Some(1), score.get(&Piece::new(PieceType::Rook, Color::White, File::A)));
    assert_eq!(Some(3), score.get(&Piece::new(PieceType::Queen, Color::White, File::D)));
    assert_eq!(Some(21), score.get(&Piece::new(PieceType::King, Color::White, File::E)));

    assert_eq!(Some(1), score.get(&Piece::new(PieceType::Bishop, Color::Black, File::C)));
    assert_eq!(Some(1), score.get(&Piece::new(PieceType::Bishop, Color::Black, File::F)));
    assert_eq!(Some(1), score.get(&Piece::new(PieceType::Knight, Color::Black, File::B)));
    assert_eq!(Some(12), score.get(&Piece::new(PieceType::Knight, Color::Black, File::G)));
    assert_eq!(Some(3), score.get(&Piece::new(PieceType::Rook, Color::Black, File::H)));
    assert_eq!(Some(5), score.get(&Piece::new(PieceType::Queen, Color::Black, File::D)));
    assert_eq!(Some(0), score.get(&Piece::new(PieceType::King, Color::Black, File::E)));
}

const REGRESSION: &str = "mC0KlB3NBJYIJQXHfHWGgvZJbs1LcD2Mdl6Seg5QHy7Zae86CJSJeK9IvMIngn!TlJTJsHJDjzZBnwBtfvtvwv7tvDQBHBtuKI67Du?8BS70zG87GO7dkALDuDdfDKfTOWTSMSNFW~01491U9TUNTM";

#[test]
fn regression_game_credits_promoted_pawn_once() {
    let game = api::Game { move_list: REGRESSION.to_string() };
    let score = score_game(&game).unwrap();
    assert_eq!(Some(1), score.get(&Piece::new(PieceType::Pawn, Color::White, File::B)));
}

#[test]
fn every_starting_slot_has_a_score() {
    let game = api::Game { move_list: "mC0K".to_string() };
    let score = score_game(&game).unwrap();
    for slot in 0..32 {
        assert_eq!(Some(0), score.get(&Piece::of_slot(slot)));
    }
}

#[test]
fn no_piece_starts_as_a_king_on_file_a() {
    let game = api::Game { move_list: String::new() };
    let score = score_game(&game).unwrap();
    assert_eq!(None, score.get(&Piece::new(PieceType::King, Color::White, File::A)));
}

#[test]
fn odd_move_list_is_rejected() {
    let game = api::Game { move_list: "mC0".to_string() };
    assert_eq!(Err(Error::OddLength), score_game(&game).map(|_| ()));
}

#[test]
fn scoring_stops_at_the_first_failure() {
    let game = api::Game { move_list: "pF0Khx1Leg".to_string() };
    assert_eq!(Err(Error::PieceNotFound('h')), score_game(&game).map(|_| ()));
}

#[test]
fn captures_are_credited_to_the_capturing_piece() {
    // 1. e4 d5 2. exd5 Qxd5
    let game = api::Game { move_list: "mCZJCJ7J".to_string() };
    let score = score_game(&game).unwrap();
    assert_eq!(Some(1), score.get(&Piece::new(PieceType::Pawn, Color::White, File::E)));
    assert_eq!(Some(1), score.get(&Piece::new(PieceType::Queen, Color::Black, File::D)));
    assert_eq!(Some(0), score.get(&Piece::new(PieceType::Pawn, Color::Black, File::D)));
}

#[test]
fn piece_values_and_labels() {
    assert_eq!(9, PieceType::Queen.value());
    assert_eq!(0, PieceType::King.value());
    assert_eq!(5, PieceType::Rook.value());
    assert_eq!(3, PieceType::Knight.value());
    assert_eq!(3, PieceType::Bishop.value());
    assert_eq!(1, PieceType::Pawn.value());
    let pawn = Piece::new(PieceType::Pawn, Color::White, File::B);
    assert_eq!(1, pawn.value());
    let queen = pawn.with_promotion(&PieceType::Queen);
    assert_eq!(9, queen.value());
    assert_eq!(PieceType::Pawn, queen.piece_type);
    assert_eq!(File::B, queen.file);
    assert_eq!(4, pawn.with_value(Some(4)).value());
    assert_eq!(pawn, pawn.with_value(None));
    assert_eq!("pawn b", pawn.label());
    assert_eq!("king e", Piece::new(PieceType::King, Color::Black, File::E).label());
    assert_eq!("Pawn B", pawn.display_name());
    assert_eq!("King", Piece::new(PieceType::King, Color::Black, File::E).display_name());
    assert_eq!("Knight G", Piece::new(PieceType::Knight, Color::White, File::G).display_name());
}

#[test]
fn score_listing_names_every_starting_piece() {
    let game = api::Game { move_list: "mCZJCJ7J".to_string() };
    let text = score_game(&game).unwrap().render();
    assert!(text.starts_with("White:\n\tKing - 0\n\tQueen - 0\n\tRook A - 0\n\tRook H - 0\n"));
    assert!(text.contains("\tPawn E - 1\n"));
    assert!(text.contains("\n\nBlack:\n\tKing - 0\n\tQueen - 1\n"));
    assert!(text.ends_with("\tPawn H - 0\n"));
    assert_eq!(35, text.lines().count());
}
