use chess_binpack_utils::backend::{truncate_game, ConvertProgress, ConvertStep};
use chess_binpack_utils::bullet::{
    batch_full, bullet_board_for_position, bullet_board_from_line, on_text_line, LineStep, FLUSH_BATCH_SIZE,
};
use chess_binpack_utils::error::Error;
use chess_binpack_utils::inspect::format_bulletformat_entry;
use chess_binpack_utils::model::{GameRecord, GameResult, PositionMoveEval};

fn position(fen: &str, uci: &str, score: i16, ply: u16) -> PositionMoveEval {
    PositionMoveEval { fen: fen.to_string(), uci: uci.to_string(), score, ply }
}

fn sample_game() -> GameRecord {
    GameRecord {
        initial_fen: "rnbqkbnr/pppppppp/8/8/8/8/PPPPPPPP/RNBQKBNR w KQkq - 0 1".to_string(),
        result: GameResult::WhiteWin,
        positions: vec![
            position("rnbqkbnr/pppppppp/8/8/8/8/PPPPPPPP/RNBQKBNR w KQkq - 0 1", "e2e4", 24, 0),
            position("rnbqkbnr/pppppppp/8/8/4P3/8/PPPP1PPP/RNBQKBNR b KQkq - 0 1", "e7e5", -18, 1),
            position("rnbqkbnr/pppp1ppp/8/4p3/4P3/8/PPPP1PPP/RNBQKBNR w KQkq - 0 2", "g1f3", 31, 2),
        ],
    }
}

#[test]
fn limit_counts_positions_and_truncates_the_last_game() {
    let mut progress = ConvertProgress::new(Some(4));
    assert_eq!(progress.on_game(3, false), ConvertStep::Write(3));
    assert_eq!(progress.on_game(3, false), ConvertStep::Write(1));
    assert_eq!(progress.on_game(3, false), ConvertStep::Stop);
    assert_eq!(progress.converted, 4);
}

#[test]
fn limit_of_one_keeps_one_entry() {
    let mut progress = ConvertProgress::new(Some(1));
    let games = vec![sample_game(), sample_game()];
    let mut written = Vec::new();
    for game in games {
        match progress.on_game(game.positions.len(), false) {
            ConvertStep::Stop => break,
            ConvertStep::Write(keep) => written.push(truncate_game(game, Some(keep as u128))),
        }
    }
    let mut expected = sample_game();
    expected.positions.truncate(1);
    assert_eq!(written, vec![expected]);
}

#[test]
fn without_limit_everything_is_written() {
    let mut progress = ConvertProgress::new(None);
    assert_eq!(progress.on_game(3, false), ConvertStep::Write(3));
    assert_eq!(progress.on_game(0, false), ConvertStep::Write(0));
    assert_eq!(progress.on_game(5, true), ConvertStep::Stop);
    assert_eq!(truncate_game(sample_game(), None), sample_game());
}

#[test]
fn truncation_keeps_a_prefix() {
    let game = truncate_game(sample_game(), Some(2));
    assert_eq!(game.positions, sample_game().positions[..2].to_vec());
    assert_eq!(truncate_game(sample_game(), Some(10)), sample_game());
    assert!(truncate_game(sample_game(), Some(0)).positions.is_empty());
}

#[test]
fn game_positions_become_white_relative_boards() {
    let game = sample_game();
    let lines: Vec<String> = game
        .positions
        .iter()
        .map(|p| format_bulletformat_entry(&bullet_board_for_position(p, game.result).unwrap()))
        .collect();
    let expected: Vec<String> = [
        "rnbqkbnr/pppppppp/8/8/8/8/PPPPPPPP/RNBQKBNR w KQkq - 0 1 | 24 | 1.0",
        "rnbqkbnr/pppppppp/8/8/4P3/8/PPPP1PPP/RNBQKBNR b KQkq - 0 1 | 18 | 1.0",
        "rnbqkbnr/pppp1ppp/8/4p3/4P3/8/PPPP1PPP/RNBQKBNR w KQkq - 0 2 | 31 | 1.0",
    ]
    .iter()
    .map(|line| format_bulletformat_entry(&bullet_board_from_line(line, 0).unwrap().unwrap()))
    .collect();
    assert_eq!(lines, expected);
}

#[test]
fn position_without_side_to_move_is_rejected() {
    let p = position("8/8/8/8/8/8/8/K6k", "a1a2", 3, 0);
    assert!(matches!(bullet_board_for_position(&p, GameResult::Draw), Err(Error::InvalidFen(_))));
}

#[test]
fn text_lines_parse_and_blank_lines_are_skipped() {
    assert!(bullet_board_from_line("   ", 4).unwrap().is_none());
    match bullet_board_from_line("8/8/8/8/8/8/8/K6k w - - 0 1 | 24 | 2.0", 4) {
        Err(Error::InvalidBulletformat(m)) => assert_eq!(m, "line 5: Bad game result!"),
        other => panic!("unexpected: {other:?}"),
    }
    match bullet_board_from_line("8/8/8/8/8/8/8/K6k w - - 0 1", 0) {
        Err(Error::InvalidBulletformat(m)) => assert_eq!(m, "line 1: Malformed!"),
        other => panic!("unexpected: {other:?}"),
    }
}

#[test]
fn text_conversion_limit_counts_non_empty_lines() {
    let lines = [
        "rnbqkbnr/pppppppp/8/8/8/8/PPPPPPPP/RNBQKBNR w KQkq - 0 1 | 24 | 1.0",
        "",
        "rnbqkbnr/pppppppp/8/8/4P3/8/PPPP1PPP/RNBQKBNR b KQkq - 0 1 | 18 | 1.0",
        "not a position",
    ];
    let mut progress = ConvertProgress::new(Some(2));
    let mut written = 0;
    let mut stopped = false;
    for (index, line) in lines.iter().enumerate() {
        match on_text_line(&mut progress, line, index).unwrap() {
            LineStep::Skip => {}
            LineStep::Stop => {
                stopped = true;
                break;
            }
            LineStep::Write(_) => written += 1,
        }
    }
    assert_eq!(written, 2);
    assert!(stopped);
}

#[test]
fn text_conversion_without_limit_reports_bad_lines() {
    let mut progress = ConvertProgress::new(None);
    assert!(matches!(on_text_line(&mut progress, "", 0), Ok(LineStep::Skip)));
    match on_text_line(&mut progress, "nonsense", 1) {
        Err(Error::InvalidBulletformat(m)) => assert_eq!(m, "line 2: Malformed!"),
        other => panic!("unexpected: {:?}", other.is_ok()),
    }
}

#[test]
fn batches_are_written_when_full() {
    assert!(!batch_full(FLUSH_BATCH_SIZE - 1));
    assert!(batch_full(FLUSH_BATCH_SIZE));
    assert_eq!(FLUSH_BATCH_SIZE, 16384);
}

#[test]
fn nothing_is_read_past_the_limit() {
    let mut progress = ConvertProgress::new(Some(3));
    assert!(!progress.limit_reached());
    assert_eq!(progress.on_game(3, false), ConvertStep::Write(3));
    assert!(progress.limit_reached());
    assert!(!ConvertProgress::new(None).limit_reached());
    assert!(ConvertProgress::new(Some(0)).limit_reached());
}
