use chess_binpack_utils::error::Error;
use chess_binpack_utils::model::{GameRecord, GameResult, PositionMoveEval};

const START: &str = "rnbqkbnr/pppppppp/8/8/8/8/PPPPPPPP/RNBQKBNR w KQkq - 0 1";

fn game(initial_fen: &str, moves: &[&str]) -> GameRecord {
    GameRecord {
        initial_fen: initial_fen.to_string(),
        result: GameResult::Draw,
        positions: moves
            .iter()
            .enumerate()
            .map(|(ply, uci)| PositionMoveEval { fen: String::new(), uci: uci.to_string(), score: 0, ply: ply as u16 })
            .collect(),
    }
}

fn game_data_message(result: Result<(), Error>) -> String {
    match result {
        Err(Error::InvalidGameData(m)) => m,
        other => panic!("unexpected: {other:?}"),
    }
}

#[test]
fn legal_game_validates() {
    assert!(game(START, &["e2e4", "e7e5", "g1f3"]).validate().is_ok());
    assert!(game(START, &[]).validate().is_ok());
}

#[test]
fn unreadable_fen_is_invalid_fen() {
    match game("not a fen", &["e2e4"]).validate() {
        Err(Error::InvalidFen(m)) => assert_eq!(m, "not a fen"),
        other => panic!("unexpected: {other:?}"),
    }
}

#[test]
fn impossible_position_is_invalid_game_data() {
    let fen = "8/8/8/8/8/8/8/8 w - - 0 1";
    assert_eq!(game_data_message(game(fen, &[]).validate()), format!("invalid position from FEN: {fen}"));
}

#[test]
fn unreadable_move_names_its_index() {
    let message = game_data_message(game(START, &["e2e4", "xx"]).validate());
    assert_eq!(message, "invalid UCI move at index 1 (xx) : invalid uci");
}

#[test]
fn illegal_move_names_its_index() {
    let message = game_data_message(game(START, &["e2e4", "e7e5", "e1e3"]).validate());
    assert_eq!(message, "illegal move at index 2 (e1e3) : illegal uci");
}
