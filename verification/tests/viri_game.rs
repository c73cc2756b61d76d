use chess_binpack_utils::chess::{MoveFlags, PieceType, ViriCastling, ViriMove};
use chess_binpack_utils::error::Error;
use chess_binpack_utils::model::{GameRecord, GameResult, PositionMoveEval};
use chess_binpack_utils::viri_game::{
    game_to_record, record_to_game, result_from_packed, standard_castling, validate_standard_castling,
    ViriGameData,
};

fn sample_games() -> Vec<GameRecord> {
    vec![GameRecord {
        initial_fen: "rnbqkbnr/pppppppp/8/8/8/8/PPPPPPPP/RNBQKBNR w KQkq - 0 1".to_string(),
        result: GameResult::WhiteWin,
        positions: vec![
            PositionMoveEval {
                fen: "rnbqkbnr/pppppppp/8/8/8/8/PPPPPPPP/RNBQKBNR w KQkq - 0 1".to_string(),
                uci: "e2e4".to_string(),
                score: 24,
                ply: 0,
            },
            PositionMoveEval {
                fen: "rnbqkbnr/pppppppp/8/8/4P3/8/PPPP1PPP/RNBQKBNR b KQkq - 0 1".to_string(),
                uci: "e7e5".to_string(),
                score: -18,
                ply: 1,
            },
            PositionMoveEval {
                fen: "rnbqkbnr/pppp1ppp/8/4p3/4P3/8/PPPP1PPP/RNBQKBNR w KQkq - 0 2".to_string(),
                uci: "g1f3".to_string(),
                score: 31,
                ply: 2,
            },
        ],
    }]
}

fn viri_move(m: viriformat::chess::chessmove::Move) -> ViriMove {
    let (from, to) = (m.from().inner(), m.to().inner());
    if let Some(promotion) = m.promotion_type() {
        let piece = match promotion.inner() {
            1 => PieceType::Knight,
            2 => PieceType::Bishop,
            3 => PieceType::Rook,
            _ => PieceType::Queen,
        };
        ViriMove::new_with_promo(from, to, piece)
    } else if m.is_castle() {
        ViriMove::new_with_flags(from, to, MoveFlags::Castle)
    } else if m.is_ep() {
        ViriMove::new_with_flags(from, to, MoveFlags::EnPassant)
    } else {
        ViriMove::new(from, to)
    }
}

fn write_and_read(record: &GameRecord) -> GameRecord {
    let game = record_to_game(record).unwrap();
    let mut bytes = Vec::new();
    game.serialise_into(&mut bytes).unwrap();
    let read = viriformat::dataformat::Game::deserialise_from(&mut bytes.as_slice(), Vec::new()).unwrap();
    let (initial, _, packed_result, _) = read.initial_position.unpack();
    let data = ViriGameData {
        initial,
        packed_result,
        moves: read.moves.iter().map(|(m, eval)| (viri_move(*m), eval.get())).collect(),
    };
    assert!(data.moves_readable());
    game_to_record(data).unwrap()
}

#[test]
fn viriformat_games_roundtrip_in_memory() {
    for record in sample_games() {
        assert_eq!(write_and_read(&record), record);
    }
}

#[test]
fn results_and_castling_survive_viriformat() {
    let record = GameRecord {
        initial_fen: "r3k2r/8/8/8/8/8/8/R3K2R w KQkq - 0 1".to_string(),
        result: GameResult::Draw,
        positions: vec![
            PositionMoveEval {
                fen: "r3k2r/8/8/8/8/8/8/R3K2R w KQkq - 0 1".to_string(),
                uci: "e1g1".to_string(),
                score: 5,
                ply: 0,
            },
            PositionMoveEval {
                fen: "r3k2r/8/8/8/8/8/8/R4RK1 b kq - 1 1".to_string(),
                uci: "e8c8".to_string(),
                score: -7,
                ply: 1,
            },
        ],
    };
    assert_eq!(write_and_read(&record), record);
}

#[test]
fn packed_results_map_to_game_results() {
    assert_eq!(result_from_packed(2).unwrap(), GameResult::WhiteWin);
    assert_eq!(result_from_packed(1).unwrap(), GameResult::Draw);
    assert_eq!(result_from_packed(0).unwrap(), GameResult::BlackWin);
    match result_from_packed(3) {
        Err(Error::InvalidViriformat(m)) => assert_eq!(m, "viriformat game has an invalid packed result"),
        other => panic!("unexpected: {other:?}"),
    }
}

#[test]
fn chess960_rights_are_not_written() {
    let standard = ViriCastling { wk: Some(7), wq: Some(0), bk: Some(63), bq: None };
    assert!(standard_castling(standard));
    let shifted = ViriCastling { wk: Some(6), wq: None, bk: None, bq: None };
    assert!(!standard_castling(shifted));

    let mut board = viriformat::chess::board::Board::new();
    board.set_from_fen("1r2k1r1/8/8/8/8/8/8/1R2K1R1 w GBgb - 0 1", true).unwrap();
    assert!(matches!(validate_standard_castling(&board), Err(Error::UnsupportedCastling(_))));
    let mut board = viriformat::chess::board::Board::new();
    board.set_from_fen("r3k2r/8/8/8/8/8/8/R3K2R w KQkq - 0 1", false).unwrap();
    assert!(validate_standard_castling(&board).is_ok());
}

#[test]
fn unreadable_fen_is_a_board_error() {
    let mut record = sample_games().remove(0);
    record.initial_fen = "nonsense".to_string();
    assert!(matches!(record_to_game(&record), Err(Error::ViriformatBoard(_))));
}

#[test]
fn illegal_moves_are_not_written() {
    let mut record = sample_games().remove(0);
    record.initial_fen = "4k3/4r3/8/8/8/8/8/3K4 w - - 0 1".to_string();
    record.positions.truncate(1);
    record.positions[0].uci = "d1e1".to_string();
    match record_to_game(&record) {
        Err(Error::InvalidViriformat(m)) => assert_eq!(m, "cannot replay move while writing viriformat output"),
        other => panic!("unexpected: {:?}", other.is_ok()),
    }
    record.positions[0].uci = "a3a4".to_string();
    assert!(matches!(record_to_game(&record), Err(Error::InvalidViriformat(_))));
}

#[test]
fn crowded_boards_are_not_packed() {
    let mut record = sample_games().remove(0);
    record.positions.clear();
    let fen = "PPPPPPPP/PPPPPPPP/PPPPPPPP/PPPPPPPP/PPPPPPPP/8/8/K6k w - - 0 1";
    record.initial_fen = fen.to_string();
    match record_to_game(&record) {
        Err(Error::ViriformatBoard(m)) => assert_eq!(m, format!("board does not fit a packed viriformat board: {fen}")),
        other => panic!("unexpected: {:?}", other.is_ok()),
    }
    let fen = "4k3/8/8/8/8/8/8/4K3 w - - 0 70000";
    record.initial_fen = fen.to_string();
    match record_to_game(&record) {
        Err(Error::ViriformatBoard(m)) => assert_eq!(m, format!("board does not fit a packed viriformat board: {fen}")),
        other => panic!("unexpected: {:?}", other.is_ok()),
    }
}

#[test]
fn capture_at_a_full_halfmove_clock_is_written() {
    let mut record = sample_games().remove(0);
    record.initial_fen = "4k3/8/8/8/8/8/4r3/4K3 w - - 100 80".to_string();
    record.positions.truncate(1);
    record.positions[0].uci = "e1e2".to_string();
    let game = record_to_game(&record).unwrap();
    assert_eq!(game.moves.len(), 1);
}
