use chess_binpack_utils::chess::{
    Color, MoveFlags, MoveType, Piece, PieceType, SfMove, ViriMove, A1, E1, E8, G8, H1, H8,
};
use chess_binpack_utils::convert::{
    game_result_to_sf_result, game_result_to_viri_outcome, game_result_to_white_relative, score_to_white_relative,
    sf_move_to_uci, sf_result_to_game_result, uci_to_sf_move, uci_to_viri_move, viri_move_to_sf_move,
};
use chess_binpack_utils::chess::{DrawType, GameOutcome, WinType};
use chess_binpack_utils::error::Error;
use chess_binpack_utils::model::GameResult;

fn viri_board(fen: &str) -> viriformat::chess::board::Board {
    let mut board = viriformat::chess::board::Board::new();
    board.set_from_fen(fen, false).unwrap();
    board
}

fn sf_position(fen: &str) -> sfbinpack::chess::position::Position {
    sfbinpack::chess::position::Position::from_fen(fen).unwrap()
}

fn error_text(error: Error) -> String {
    match error {
        Error::InvalidViriformat(m) | Error::InvalidFen(m) => m,
        other => panic!("unexpected error: {other:?}"),
    }
}

#[test]
fn result_mapping_roundtrips() {
    for side in [Color::White, Color::Black] {
        for result in [GameResult::WhiteWin, GameResult::Draw, GameResult::BlackWin] {
            let sf = game_result_to_sf_result(result, side);
            assert_eq!(sf_result_to_game_result(sf, side).unwrap(), result);
        }
    }
}

#[test]
fn score_maps_to_white_relative() {
    assert_eq!(score_to_white_relative(42, "8/8/8/8/8/8/8/8 w - - 0 1").unwrap(), 42);
    assert_eq!(score_to_white_relative(42, "8/8/8/8/8/8/8/8 b - - 0 1").unwrap(), -42);
}

#[test]
fn uci_to_viri_castle_keeps_king_destination() {
    let board = viri_board("r3k2r/8/8/8/8/8/8/R3K2R b KQkq - 0 1");

    let mv = uci_to_viri_move("e8g8", &board).unwrap();

    assert!(mv.is_castle());
    assert_eq!(mv.to(), H8);
}

#[test]
fn viri_castle_maps_to_sf_rook_square() {
    let mv = ViriMove::new_with_flags(E1, A1, MoveFlags::Castle);
    let sf_move = viri_move_to_sf_move(mv).unwrap();

    assert_eq!(sf_move.mtype(), MoveType::Castle);
    assert_eq!(sf_move.to(), A1);
    assert_eq!(sf_move.as_uci(), "e1c1");
}

#[test]
fn uci_to_viri_non_castle_king_move_stays_normal_without_rights() {
    let board = viri_board("4k3/8/8/8/8/8/8/4K3 b - - 0 1");

    let mv = uci_to_viri_move("e8g8", &board).unwrap();

    assert!(!mv.is_castle());
    assert_eq!(mv.to(), G8);
}

#[test]
fn uci_to_sf_castle_maps_to_sf_rook_square() {
    let position = sf_position("r3k2r/8/8/8/8/8/8/R3K2R w KQkq - 0 1");

    let mv = uci_to_sf_move("e1g1", &position).unwrap();

    assert_eq!(mv.mtype(), MoveType::Castle);
    assert_eq!(mv.to(), H1);
    assert_eq!(mv.as_uci(), "e1g1");
}

#[test]
fn sf_result_field_reads_relative_to_side_to_move() {
    assert_eq!(sf_result_to_game_result(1, Color::White).unwrap(), GameResult::WhiteWin);
    assert_eq!(sf_result_to_game_result(1, Color::Black).unwrap(), GameResult::BlackWin);
    assert_eq!(sf_result_to_game_result(-1, Color::White).unwrap(), GameResult::BlackWin);
    assert_eq!(sf_result_to_game_result(0, Color::Black).unwrap(), GameResult::Draw);
    assert_eq!(game_result_to_sf_result(GameResult::WhiteWin, Color::Black), -1);
    assert_eq!(game_result_to_sf_result(GameResult::Draw, Color::White), 0);
}

#[test]
fn sf_result_field_out_of_range_is_rejected() {
    let error = sf_result_to_game_result(-7, Color::White).unwrap_err();
    assert_eq!(error_text(error), "unsupported sfbinpack result value: -7");
    let error = sf_result_to_game_result(2, Color::Black).unwrap_err();
    assert_eq!(error_text(error), "unsupported sfbinpack result value: 2");
}

#[test]
fn sf_result_fields_roundtrip_for_each_side() {
    for side in [Color::White, Color::Black] {
        for field in [-1i16, 0, 1] {
            let result = sf_result_to_game_result(field, side).unwrap();
            assert_eq!(game_result_to_sf_result(result, side), field);
        }
    }
}

#[test]
fn score_needs_a_side_to_move() {
    let error = score_to_white_relative(5, "8/8/8/8/8/8/8/8").unwrap_err();
    assert_eq!(error_text(error), "missing side-to-move in FEN: 8/8/8/8/8/8/8/8");
    let error = score_to_white_relative(5, "8/8/8/8/8/8/8/8 x - - 0 1").unwrap_err();
    assert_eq!(error_text(error), "invalid side-to-move in FEN: 8/8/8/8/8/8/8/8 x - - 0 1");
    assert_eq!(score_to_white_relative(-300, "  8/8/8/8/8/8/8/8   b").unwrap(), 300);
}

#[test]
fn white_relative_results_are_text() {
    assert_eq!(game_result_to_white_relative(GameResult::WhiteWin), "1.0");
    assert_eq!(game_result_to_white_relative(GameResult::Draw), "0.5");
    assert_eq!(game_result_to_white_relative(GameResult::BlackWin), "0.0");
}

#[test]
fn results_become_adjudicated_viri_outcomes() {
    assert_eq!(game_result_to_viri_outcome(GameResult::WhiteWin), GameOutcome::WhiteWin(WinType::Adjudication));
    assert_eq!(game_result_to_viri_outcome(GameResult::Draw), GameOutcome::Draw(DrawType::Adjudication));
    assert_eq!(game_result_to_viri_outcome(GameResult::BlackWin), GameOutcome::BlackWin(WinType::Adjudication));
}

#[test]
fn sf_moves_print_as_uci() {
    let normal = SfMove::new(12, 28, MoveType::Normal, Piece::none());
    assert_eq!(sf_move_to_uci(normal), "e2e4");
    let promotion = SfMove::new(52, 60, MoveType::Promotion, Piece::new(PieceType::Queen, Color::White));
    assert_eq!(sf_move_to_uci(promotion), "e7e8q");
    let long_castle = SfMove::new(E8, 56, MoveType::Castle, Piece::none());
    assert_eq!(sf_move_to_uci(long_castle), "e8c8");
}

#[test]
fn uci_to_sf_move_reads_plain_moves() {
    let position = sf_position("rnbqkbnr/pppppppp/8/8/8/8/PPPPPPPP/RNBQKBNR w KQkq - 0 1");
    let mv = uci_to_sf_move("g1f3", &position).unwrap();
    assert_eq!(mv.mtype(), MoveType::Normal);
    assert_eq!((mv.from(), mv.to()), (6, 21));
    assert_eq!(mv.as_uci(), "g1f3");
}

#[test]
fn uci_to_sf_move_reads_promotions_and_en_passant() {
    let position = sf_position("8/4P1k1/8/3pP3/8/8/8/4K3 w - d6 0 1");
    let promotion = uci_to_sf_move("e7e8n", &position).unwrap();
    assert_eq!(promotion.mtype(), MoveType::Promotion);
    assert_eq!(promotion.promoted_piece(), Piece::new(PieceType::Knight, Color::White));
    assert_eq!(promotion.as_uci(), "e7e8n");
    let capture = uci_to_sf_move("e5d6", &position).unwrap();
    assert_eq!(capture.mtype(), MoveType::EnPassant);
}

#[test]
fn uci_to_sf_move_rejects_bad_text() {
    let position = sf_position("rnbqkbnr/pppppppp/8/8/8/8/PPPPPPPP/RNBQKBNR w KQkq - 0 1");
    assert!(matches!(uci_to_sf_move("e2", &position), Err(Error::InvalidViriformat(_))));
    assert!(matches!(uci_to_sf_move("z2e4", &position), Err(Error::InvalidViriformat(_))));
    assert!(matches!(uci_to_sf_move("e2e9", &position), Err(Error::InvalidViriformat(_))));
    assert!(matches!(uci_to_sf_move("e7e8x", &position), Err(Error::InvalidViriformat(_))));
}

#[test]
fn uci_to_viri_move_reads_kinds_from_the_board() {
    let board = viri_board("8/4P1k1/8/3pP3/8/8/8/4K3 w - d6 0 1");
    let promotion = uci_to_viri_move("e7e8r", &board).unwrap();
    assert_eq!(promotion.promotion_type(), Some(PieceType::Rook));
    let capture = uci_to_viri_move("e5d6", &board).unwrap();
    assert!(capture.is_ep());
    let quiet = uci_to_viri_move("e1e2", &board).unwrap();
    assert_eq!(quiet, ViriMove::new(E1, 12));
}

#[test]
fn uci_to_viri_move_needs_a_piece_to_move() {
    let board = viri_board("4k3/8/8/8/8/8/8/4K3 w - - 0 1");
    let error = uci_to_viri_move("a2a4", &board).unwrap_err();
    assert!(matches!(error, Error::InvalidViriformat(_)));
    let error = uci_to_viri_move("i2a4", &board).unwrap_err();
    assert!(matches!(error, Error::InvalidViriformat(_)));
}

#[test]
fn uci_text_survives_both_encodings() {
    let fen = "r3k2r/pP6/8/8/8/8/8/R3K2R w KQkq - 0 1";
    let position = sf_position(fen);
    let board = viri_board(fen);
    for uci in ["e1g1", "e1c1", "a1a7", "b7a8q", "b7b8n", "h1h5"] {
        let sf_move = uci_to_sf_move(uci, &position).unwrap();
        assert_eq!(sf_move.as_uci(), uci);
        let viri_move = uci_to_viri_move(uci, &board).unwrap();
        assert_eq!(viri_move_to_sf_move(viri_move).unwrap().as_uci(), uci);
    }
}

#[test]
fn viri_moves_translate_square_for_square() {
    let plain = viri_move_to_sf_move(ViriMove::new(12, 28)).unwrap();
    assert_eq!(plain, SfMove::new(12, 28, MoveType::Normal, Piece::none()));
    let short_castle = viri_move_to_sf_move(ViriMove::new_with_flags(E8, H8, MoveFlags::Castle)).unwrap();
    assert_eq!(short_castle.as_uci(), "e8g8");
    let promotion = viri_move_to_sf_move(ViriMove::new_with_promo(49, 57, PieceType::Bishop)).unwrap();
    assert_eq!(promotion.as_uci(), "b7b8b");
}
