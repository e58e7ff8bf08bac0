use fantasy_chess::analysis::PieceType;
use fantasy_chess::db::Recordable;
use fantasy_chess::dumbchess::{self, Square};
use fantasy_chess::pgn::{Error, GameScore};

fn headers(pairs: &[(&str, &str)]) -> GameScore {
    let mut g = GameScore::new();
    for (k, v) in pairs {
        g.header(k, v).unwrap();
    }
    g
}

#[test]
fn player_headers() {
    let g = headers(&[("White", "alice"), ("BLACK", "bob"), ("WhiteElo", "1500"), ("BlackElo", "-7")]);
    let game = g.game().unwrap();
    assert_eq!("alice", game.white_player_name);
    assert_eq!("alice", game.white_player_id);
    assert_eq!("bob", game.black_player_name);
    assert_eq!("bob", game.black_player_id);
    assert_eq!(1500, game.white_player_rating);
    assert_eq!(-7, game.black_player_rating);
}

#[test]
fn bad_rating_is_rejected() {
    let mut g = GameScore::new();
    assert_eq!(Err(Error::InvalidRating), g.header("WhiteElo", "15x0"));
    assert_eq!(Err(Error::InvalidRating), g.header("BlackElo", ""));
    assert_eq!(0, g.game().unwrap().white_player_rating);
}

#[test]
fn site_and_link_headers() {
    let g = headers(&[("Site", "https://lichess.org/abcdEFGH")]);
    let game = g.game().unwrap();
    assert_eq!("lichess.org", game.source);
    assert_eq!("abcdEFGH", game.source_id);
    let g = headers(&[("Site", "Chess.com"), ("Link", "https://www.chess.com/game/live/12345")]);
    let game = g.game().unwrap();
    assert_eq!("chess.com", game.source);
    assert_eq!("12345", game.source_id);
    let g = headers(&[("Link", "https://example.org/1")]);
    assert_eq!("", g.game().unwrap().source_id);
}

#[test]
fn date_and_time_give_end_time() {
    let mut g = headers(&[("UTCDate", "2021.01.02"), ("UTCTime", "03:04:05"), ("Event", "Rated Blitz game")]);
    assert_eq!(Ok(false), g.end_headers());
    let game = g.game().unwrap();
    assert_eq!(1609556645, game.end_time);
    assert_eq!(36, game.id.len());
    assert!(g.end_game().is_some());
}

#[test]
fn end_time_header_drops_the_zone() {
    let mut g = headers(&[("Date", "2021.01.02"), ("EndTime", "03:04:05 PST")]);
    assert_eq!(Ok(false), g.end_headers());
    assert_eq!(1609556645, g.game().unwrap().end_time);
}

#[test]
fn bad_date_is_rejected() {
    let mut g = headers(&[("Date", "2021.13.02"), ("UTCTime", "03:04:05")]);
    assert_eq!(Err(Error::InvalidDateTime), g.end_headers());
    assert_eq!("", g.game().unwrap().id);
}

#[test]
fn variants_are_skipped() {
    let mut g = headers(&[("Event", "Casual Chess960 game"), ("Date", "2021.01.02"), ("UTCTime", "03:04:05")]);
    assert_eq!(Ok(true), g.end_headers());
    assert!(g.end_game().is_none());
    let g = headers(&[("Event", "Odds Chess")]);
    assert!(g.end_game().is_none());
}

#[test]
fn moves_are_replayed_and_recorded() {
    let mut g = GameScore::default();
    g.apply_move(Square::E2, Square::E4, None).unwrap();
    g.apply_move(Square::D7, Square::D5, None).unwrap();
    g.apply_move(Square::E4, Square::D5, None).unwrap();
    let moves = g.moves().unwrap();
    assert_eq!(3, moves.len());
    assert_eq!(3, moves[2].move_num);
    assert_eq!("pawn d", moves[2].captured_piece);
    assert_eq!(1, moves[2].capture_score);
    assert_eq!(
        Err(Error::Replay(dumbchess::Error::PieceNotFound(Square::E2))),
        g.apply_move(Square::E2, Square::E4, Some(PieceType::Queen))
    );
    assert_eq!(3, g.moves().unwrap().len());
}

#[test]
fn lowered_header_is_applied_as_given() {
    let mut g = GameScore::new();
    g.apply_header("site", "Example Site", "example site").unwrap();
    g.apply_header("event", "Whatever", "an odds chess match").unwrap();
    assert_eq!("example site", g.game().unwrap().source);
    assert!(g.end_game().is_none());
    let mut g = GameScore::new();
    g.apply_header("WHITE", "alice", "alice").unwrap();
    assert_eq!("", g.game().unwrap().white_player_name);
}

#[test]
fn finishing_headers_sets_id_and_time() {
    let mut g = GameScore::new();
    assert_eq!(Ok(false), g.finish_headers("game-1".to_string(), Some(42)));
    let game = g.game().unwrap();
    assert_eq!("game-1", game.id);
    assert_eq!(42, game.end_time);
    let mut g = GameScore::new();
    assert_eq!(Err(Error::InvalidDateTime), g.finish_headers("game-2".to_string(), None));
    assert_eq!("", g.game().unwrap().id);
}

#[test]
fn finished_game_is_a_copy() {
    let mut g = headers(&[("White", "alice")]);
    g.apply_move(Square::E2, Square::E4, None).unwrap();
    let done = g.end_game().unwrap();
    assert_eq!("alice", done.game().unwrap().white_player_name);
    assert_eq!(1, done.moves().unwrap().len());
    assert_eq!("e4", done.moves().unwrap()[0].ending_location);
}
