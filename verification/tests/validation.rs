use chess_binpack_utils::error::Error;
use chess_binpack_utils::model::{GameRecord, GameResult, PositionMoveEval};
use chess_binpack_utils::validation::{validate_next, validated_report, ValidateStep};

const START: &str = "rnbqkbnr/pppppppp/8/8/8/8/PPPPPPPP/RNBQKBNR w KQkq - 0 1";

fn one_move_game(uci: &str) -> GameRecord {
    GameRecord {
        initial_fen: START.to_string(),
        result: GameResult::WhiteWin,
        positions: vec![PositionMoveEval { fen: START.to_string(), uci: uci.to_string(), score: 24, ply: 0 }],
    }
}

#[test]
fn one_legal_game_counts_one() {
    assert_eq!(validate_next(0, &one_move_game("e2e4"), false).unwrap(), ValidateStep::Counted(1));
    assert_eq!(validated_report(1), "validated 1 games");
    assert_eq!(validated_report(0), "validated 0 games");
}

#[test]
fn an_interrupt_stops_before_the_game() {
    assert_eq!(validate_next(3, &one_move_game("e2e5"), true).unwrap(), ValidateStep::Stop);
}

#[test]
fn an_illegal_game_ends_the_run() {
    match validate_next(0, &one_move_game("e2e5"), false) {
        Err(Error::InvalidGameData(m)) => assert!(m.contains("e2e5")),
        other => panic!("unexpected: {other:?}"),
    }
}
