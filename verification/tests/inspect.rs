use chess_binpack_utils::bullet::bullet_board_from_line;
use chess_binpack_utils::inspect::{
    bulletformat_board_fen, bulletformat_piece_char, format_bulletformat_entry, format_game_entry, format_result,
    BulletBoard, PrintBudget,
};
use chess_binpack_utils::model::{GameResult, PositionMoveEval};

fn board(line: &str) -> BulletBoard {
    bullet_board_from_line(line, 0).unwrap().unwrap()
}

#[test]
fn formats_game_entry_as_single_line() {
    let entry = PositionMoveEval {
        fen: "startpos-fen".to_string(),
        uci: "e2e4".to_string(),
        score: 24,
        ply: 0,
    };

    assert_eq!(format_game_entry(&entry, GameResult::WhiteWin), "startpos-fen | e2e4 | 24 | 0 | 1-0");
}

#[test]
fn formats_bulletformat_entry_as_text_line() {
    let entry = board("8/8/8/8/8/8/8/K6k w - - 0 1 | 24 | 1.0");

    assert_eq!(format_bulletformat_entry(&entry), "8/8/8/8/8/8/8/K6k w - - 0 1 | 24 | 1.0");
}

#[test]
fn game_entries_show_negative_scores_and_draws() {
    let entry = PositionMoveEval {
        fen: "some-fen b".to_string(),
        uci: "e7e5".to_string(),
        score: -18,
        ply: 1,
    };
    assert_eq!(format_game_entry(&entry, GameResult::Draw), "some-fen b | e7e5 | -18 | 1 | 1/2-1/2");
    assert_eq!(format_game_entry(&entry, GameResult::BlackWin), "some-fen b | e7e5 | -18 | 1 | 0-1");
}

#[test]
fn results_print_in_pgn_notation() {
    assert_eq!(format_result(GameResult::WhiteWin), "1-0");
    assert_eq!(format_result(GameResult::Draw), "1/2-1/2");
    assert_eq!(format_result(GameResult::BlackWin), "0-1");
}

#[test]
fn piece_codes_map_to_fen_letters() {
    let letters: String = [0u8, 1, 2, 3, 4, 5, 8, 9, 10, 11, 12, 13].iter().map(|&p| bulletformat_piece_char(p)).collect();
    assert_eq!(letters, "PNBRQKpnbrqk");
    assert_eq!(bulletformat_piece_char(6), '?');
    assert_eq!(bulletformat_piece_char(15), '?');
}

#[test]
fn board_placement_of_the_start_position() {
    let start = board("rnbqkbnr/pppppppp/8/8/8/8/PPPPPPPP/RNBQKBNR w KQkq - 0 1 | 0 | 0.5");
    assert_eq!(bulletformat_board_fen(&start), "rnbqkbnr/pppppppp/8/8/8/8/PPPPPPPP/RNBQKBNR");
    assert_eq!(
        format_bulletformat_entry(&start),
        "rnbqkbnr/pppppppp/8/8/8/8/PPPPPPPP/RNBQKBNR w - - 0 1 | 0 | 0.5"
    );
}

#[test]
fn bulletformat_entries_are_from_the_side_to_move() {
    let entry = board("rnbqkbnr/pppppppp/8/8/4P3/8/PPPP1PPP/RNBQKBNR b KQkq - 0 1 | 18 | 1.0");
    assert_eq!(
        format_bulletformat_entry(&entry),
        "rnbqkbnr/pppp1ppp/8/4p3/8/8/PPPPPPPP/RNBQKBNR w - - 0 1 | -18 | 0.0"
    );
}

#[test]
fn print_budget_stops_at_the_limit() {
    let mut budget = PrintBudget::new(Some(2));
    assert!(budget.take(false));
    assert!(budget.take(false));
    assert!(!budget.take(false));
    assert_eq!(budget.printed, 2);
}

#[test]
fn print_budget_stops_when_interrupted() {
    let mut budget = PrintBudget::new(None);
    assert!(budget.take(false));
    assert!(!budget.take(true));
    assert_eq!(budget.printed, 1);
    let mut empty = PrintBudget::new(Some(0));
    assert!(!empty.take(false));
}
