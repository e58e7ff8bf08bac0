use fantasy_chess::chess_com::{Game, GameResponse, Player, Players};
use fantasy_chess::db::{self, Recordable};
use fantasy_chess::dumbchess::{self, Square};

fn response(top_color: &str, move_list: &str) -> GameResponse {
    GameResponse {
        game: Game { id: 7545694171, end_time: 1600000000, move_list: move_list.to_string() },
        players: Players {
            top: Player { id: 31513926, username: "alice".to_string(), color: top_color.to_string(), rating: 1500 },
            bottom: Player { id: 42, username: "bob".to_string(), color: "x".to_string(), rating: 1200 },
        },
    }
}

#[test]
fn top_player_white() {
    let g = response("white", "").game().unwrap();
    assert_eq!(36, g.id.len());
    assert_eq!("chess.com", g.source);
    assert_eq!("7545694171", g.source_id);
    assert_eq!(1600000000, g.end_time);
    assert_eq!("31513926", g.white_player_id);
    assert_eq!("alice", g.white_player_name);
    assert_eq!(1500, g.white_player_rating);
    assert_eq!("42", g.black_player_id);
    assert_eq!("bob", g.black_player_name);
    assert_eq!(1200, g.black_player_rating);
}

#[test]
fn top_player_black() {
    let g = response("black", "").game().unwrap();
    assert_eq!("42", g.white_player_id);
    assert_eq!("bob", g.white_player_name);
    assert_eq!("alice", g.black_player_name);
    assert_eq!(1500, g.black_player_rating);
}

#[test]
fn unknown_color_fails() {
    assert_eq!(Err(db::Error::GameTranslation), response("green", "").game().map(|_| ()));
}

#[test]
fn each_game_gets_a_fresh_id() {
    let a = response("white", "").game().unwrap();
    let b = response("white", "").game().unwrap();
    assert_ne!(a.id, b.id);
}

#[test]
fn moves_are_recorded() {
    let moves = response("white", "mC0K").moves().unwrap();
    assert_eq!(2, moves.len());
    assert_eq!("pawn e", moves[1].moved_piece);
    assert_eq!("e5", moves[1].ending_location);
}

#[test]
fn replay_failures_are_translated() {
    assert_eq!(Err(db::Error::GameTranslation), response("white", "mC0").moves().map(|_| ()));
    assert_eq!(Err(db::Error::GameTranslation), response("white", "m%").moves().map(|_| ()));
    assert_eq!(
        Err(db::Error::MoveTranslation { source: dumbchess::Error::PieceNotFound(Square::E2) }),
        response("white", "mCmC").moves().map(|_| ())
    );
}

#[test]
fn empty_game_record() {
    let g = db::Game::empty();
    assert_eq!("", g.id);
    assert_eq!(0, g.end_time);
    assert_eq!(0, g.white_player_rating);
}

#[test]
fn game_record_under_given_id() {
    let g = response("black", "").record_game_with_id("abc".to_string()).unwrap();
    assert_eq!("abc", g.id);
    assert_eq!("42", g.white_player_id);
    assert_eq!("7545694171", g.source_id);
}
