use fantasy_chess::analysis::{decode_ply, replay_moves, Board, Color, Error, File, Piece, PieceType};
use fantasy_chess::dumbchess::{self, Square};

fn play(board: &mut Board, moves: &str) {
    let chars: Vec<char> = moves.chars().collect();
    for pair in chars.chunks(2) {
        board.move_and_score(pair[0], pair[1]).unwrap();
    }
}

#[test]
fn opening_move_records() {
    let records = replay_moves("mC0K").unwrap();
    assert_eq!(2, records.len());
    assert_eq!(1, records[0].move_num);
    assert_eq!("white", records[0].color);
    assert_eq!("pawn e", records[0].moved_piece);
    assert_eq!("e2", records[0].starting_location);
    assert_eq!("e4", records[0].ending_location);
    assert_eq!("", records[0].captured_piece);
    assert_eq!(0, records[0].capture_score);
    assert_eq!(2, records[1].move_num);
    assert_eq!("black", records[1].color);
    assert_eq!("e7", records[1].starting_location);
    assert_eq!("e5", records[1].ending_location);
}

#[test]
fn one_record_per_pair_of_symbols() {
    let list = "mC0KlB3NBJYIJQXHfHWGgvZJbs1LcD2Mdl6Seg5QHy7Zae86CJSJeK9IvMIngn!TlJTJsHJDjzZBnwBtfvtvwv7tvDQBHBtuKI67Du?8BS70zG87GO7dkALDuDdfDKfTOWTSMSNFW~01491U9TUNTM";
    let records = replay_moves(list).unwrap();
    assert_eq!(list.len() / 2, records.len());
    assert_eq!(Err(Error::OddLength), replay_moves("mC0").map(|_| ()));
}

#[test]
fn replaying_twice_gives_identical_records() {
    let list = "mC0KlB3NBJYIJQXHfHWGgvZJbs1LcD2Mdl6Seg5QHy7Zae86CJSJeK9IvMIngn!TlJTJsHJDjzZBnwBtfvtvwv7tvDQBHBtuKI67Du?8BS70zG87GO7dkALDuDdfDKfTOWTSMSNFW~01491U9TUNTM";
    let first = replay_moves(list).unwrap();
    let second = replay_moves(list).unwrap();
    assert_eq!(format!("{:?}", first), format!("{:?}", second));
}

#[test]
fn quiet_move_keeps_piece_and_count() {
    let mut board = Board::starting();
    let (mover, score) = board.move_and_score('g', 'v').unwrap();
    assert_eq!(0, score);
    assert_eq!(Piece::new(PieceType::Knight, Color::White, File::G), mover);
    assert_eq!(None, board.piece_at(Square::G1));
    assert_eq!(Some(mover), board.piece_at(Square::F3));
    let count = (0..64u8).filter(|i| board.piece_at(Square::from_index(*i)).is_some()).count();
    assert_eq!(32, count);
}

#[test]
fn promotion_keeps_identity_and_changes_value() {
    let list = "mC0KlB3NBJYIJQXHfHWGgvZJbs1LcD2Mdl6Seg5QHy7Zae86CJSJeK9IvMIngn!TlJTJsHJDjzZBnwBtfvtvwv7tvDQBHBtuKI67Du?8BS70zG87GO7dkALDuDdfDKfTOWTSMSNFW~";
    let mut board = Board::starting();
    play(&mut board, list);
    let promoted = board.piece_at(Square::A8).unwrap();
    assert_eq!(PieceType::Pawn, promoted.piece_type);
    assert_eq!(Color::White, promoted.color);
    assert_eq!(File::B, promoted.file);
    assert_eq!(9, promoted.value());
    let records = replay_moves(list).unwrap();
    let last = records.last().unwrap();
    assert_eq!("pawn b", last.moved_piece);
    assert_eq!("a7", last.starting_location);
    assert_eq!("a8", last.ending_location);
}

#[test]
fn promotion_markers_decode() {
    assert_eq!(Some((Square::A7, Square::A8, Some(PieceType::Queen))), decode_ply('W', '~'));
    assert_eq!(Some((Square::B7, Square::A8, Some(PieceType::Knight))), decode_ply('X', '('));
    assert_eq!(Some((Square::G2, Square::H1, Some(PieceType::Bishop))), decode_ply('o', '$'));
    assert_eq!(Some((Square::H2, Square::H1, Some(PieceType::Rook))), decode_ply('p', '_'));
    assert_eq!(None, decode_ply('W', '('));
    assert_eq!(None, decode_ply('C', '~'));
    assert_eq!(None, decode_ply('m', '%'));
    assert_eq!(Some((Square::E2, Square::E4, None)), decode_ply('m', 'C'));
}

#[test]
fn bad_symbols_are_rejected() {
    let mut board = Board::starting();
    assert_eq!(Err(Error::BadEncoding('C', '~')), board.move_and_score('C', '~').map(|_| ()));
    assert_eq!(Err(Error::BadEncoding('m', '%')), board.move_and_score('m', '%').map(|_| ()));
}

#[test]
fn moving_from_an_empty_square_fails() {
    let mut board = Board::starting();
    board.move_and_score('m', 'C').unwrap();
    assert_eq!(Err(Error::PieceNotFound('m')), board.move_and_score('m', 'C').map(|_| ()));
    assert_eq!(Some(Piece::new(PieceType::Pawn, Color::White, File::E)), board.piece_at(Square::E4));
}

#[test]
fn castling_moves_king_and_rook() {
    let mut board = Board::starting();
    play(&mut board, "mC0Kgv5QfA9I");
    let (mover, score) = board.move_and_score('e', 'g').unwrap();
    assert_eq!(0, score);
    assert_eq!(PieceType::King, mover.piece_type);
    assert_eq!(Some(mover), board.piece_at(Square::G1));
    assert_eq!(Some(Piece::new(PieceType::Rook, Color::White, File::H)), board.piece_at(Square::F1));
    assert_eq!(None, board.piece_at(Square::E1));
    assert_eq!(None, board.piece_at(Square::H1));
}

#[test]
fn castling_without_rook_fails() {
    let mut board = Board::starting();
    play(&mut board, "pF0Khx1L");
    assert_eq!(Err(Error::PieceNotFound('h')), board.move_and_score('e', 'g').map(|_| ()));
    assert_eq!(Some(Piece::new(PieceType::King, Color::White, File::E)), board.piece_at(Square::E1));
}

#[test]
fn en_passant_takes_the_pawn_beside() {
    let records = replay_moves("mCWOCKZJKR").unwrap();
    let last = records.last().unwrap();
    assert_eq!("e5", last.starting_location);
    assert_eq!("d6", last.ending_location);
    assert_eq!("pawn d", last.captured_piece);
    assert_eq!(1, last.capture_score);
    let mut board = Board::starting();
    play(&mut board, "mCWOCKZJKR");
    assert_eq!(None, board.piece_at(Square::D5));
    assert_eq!(Some(Piece::new(PieceType::Pawn, Color::White, File::E)), board.piece_at(Square::D6));
}

#[test]
fn no_en_passant_without_double_step() {
    let records = replay_moves("mCWOCKZRiqRJKR").unwrap();
    let last = records.last().unwrap();
    assert_eq!("d6", last.ending_location);
    assert_eq!("", last.captured_piece);
    assert_eq!(0, last.capture_score);
    let mut board = Board::starting();
    play(&mut board, "mCWOCKZRiqRJKR");
    assert_eq!(Some(Piece::new(PieceType::Pawn, Color::Black, File::D)), board.piece_at(Square::D5));
}

#[test]
fn engine_board_records_and_errors() {
    let mut board = dumbchess::Board::starting();
    let m = board.make_move(&Square::E2, &Square::E4, None).unwrap();
    assert_eq!(1, m.move_num);
    assert_eq!("e4", m.ending_location);
    assert_eq!(
        Err(dumbchess::Error::PieceNotFound(Square::E2)),
        board.make_move(&Square::E2, &Square::E4, None).map(|_| ())
    );
    let m = board.make_move(&Square::D7, &Square::D5, None).unwrap();
    assert_eq!(2, m.move_num);
    let m = board.make_move(&Square::E4, &Square::D5, None).unwrap();
    assert_eq!("pawn d", m.captured_piece);
    assert_eq!(1, m.capture_score);
}

#[test]
fn square_symbols_and_names() {
    assert_eq!(Some(Square::A1), Square::from_code('a'));
    assert_eq!(Some(Square::C4), Square::from_code('A'));
    assert_eq!(Some(Square::E7), Square::from_code('0'));
    assert_eq!(Some(Square::H8), Square::from_code('?'));
    assert_eq!(None, Square::from_code('~'));
    assert_eq!('!', Square::G8.code());
    assert_eq!(27, Square::D4.index());
    assert_eq!(Square::D4, Square::from_index(27));
    assert_eq!("d4", Square::D4.name());
    assert_eq!("h8", Square::H8.name());
}
