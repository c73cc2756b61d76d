use chess_binpack_utils::chess::{Color, MoveType, Piece, SfMove};
use chess_binpack_utils::error::Error;
use chess_binpack_utils::model::GameResult;
use chess_binpack_utils::model::PositionMoveEval;
use chess_binpack_utils::sf_game::{build_game_record, sf_entry_for_position, SfEntry, SfGameAssembler};

fn entry(fen: &str, side: Color, from: u8, to: u8, score: i16, ply: u16, result: i16) -> SfEntry {
    SfEntry {
        fen: Ok(fen.to_string()),
        side_to_move: side,
        mv: SfMove::new(from, to, MoveType::Normal, Piece::none()),
        score,
        ply,
        result,
    }
}

fn sample_entries() -> Vec<SfEntry> {
    vec![
        entry("rnbqkbnr/pppppppp/8/8/8/8/PPPPPPPP/RNBQKBNR w KQkq - 0 1", Color::White, 12, 28, 24, 0, 1),
        entry("rnbqkbnr/pppppppp/8/8/4P3/8/PPPP1PPP/RNBQKBNR b KQkq - 0 1", Color::Black, 52, 36, -18, 1, -1),
        entry("rnbqkbnr/pppp1ppp/8/4p3/4P3/8/PPPP1PPP/RNBQKBNR w KQkq - 0 2", Color::White, 6, 21, 31, 2, 1),
    ]
}

#[test]
fn entries_become_a_game_record() {
    let record = build_game_record(&sample_entries()).unwrap();
    assert_eq!(record.initial_fen, "rnbqkbnr/pppppppp/8/8/8/8/PPPPPPPP/RNBQKBNR w KQkq - 0 1");
    assert_eq!(record.result, GameResult::WhiteWin);
    let ucis: Vec<&str> = record.positions.iter().map(|p| p.uci.as_str()).collect();
    assert_eq!(ucis, vec!["e2e4", "e7e5", "g1f3"]);
    let scores: Vec<i16> = record.positions.iter().map(|p| p.score).collect();
    assert_eq!(scores, vec![24, -18, 31]);
    assert_eq!(record.positions[1].ply, 1);
}

#[test]
fn empty_entry_group_is_rejected() {
    match build_game_record(&Vec::new()) {
        Err(Error::InvalidViriformat(m)) => assert_eq!(m, "empty sfbinpack game"),
        other => panic!("unexpected: {other:?}"),
    }
}

#[test]
fn unwritable_fen_is_reported() {
    let mut entries = sample_entries();
    entries[2].fen = Err("bad position".to_string());
    match build_game_record(&entries) {
        Err(Error::SfbinpackFen(m)) => assert_eq!(m, "bad position"),
        other => panic!("unexpected: {other:?}"),
    }
}

#[test]
fn unknown_result_field_is_rejected() {
    let mut entries = sample_entries();
    entries[0].result = 5;
    assert!(matches!(build_game_record(&entries), Err(Error::InvalidViriformat(_))));
}

#[test]
fn assembler_splits_games_at_non_continuations() {
    let mut assembler = SfGameAssembler::new();
    assert!(!assembler.wants_continuation());
    let mut games = Vec::new();
    let marks = [false, true, true, false, true];
    for (i, continuation) in marks.iter().enumerate() {
        let mut e = sample_entries().remove(0);
        e.ply = i as u16;
        if let Some(done) = assembler.on_entry(e, *continuation) {
            games.push(done);
        }
        assert!(assembler.wants_continuation());
    }
    if let Some(done) = assembler.on_end() {
        games.push(done);
    }
    let plies: Vec<Vec<u16>> = games.iter().map(|g| g.iter().map(|e| e.ply).collect()).collect();
    assert_eq!(plies, vec![vec![0, 1, 2], vec![3, 4]]);
    assert!(assembler.on_end().is_none());
}

#[test]
fn entry_fields_follow_the_side_to_move() {
    let item = PositionMoveEval { fen: String::new(), uci: "e7e5".to_string(), score: -18, ply: 1 };
    let position = sfbinpack::chess::position::Position::from_fen(
        "rnbqkbnr/pppppppp/8/8/4P3/8/PPPP1PPP/RNBQKBNR b KQkq - 0 1",
    )
    .unwrap();
    let (mv, field) = sf_entry_for_position(&item, GameResult::WhiteWin, &position).unwrap();
    assert_eq!(mv.as_uci(), "e7e5");
    assert_eq!(field, -1);
    let (_, field) = sf_entry_for_position(&item, GameResult::Draw, &position).unwrap();
    assert_eq!(field, 0);
}

#[test]
fn printable_moves() {
    assert!(SfMove::new(12, 28, MoveType::Normal, Piece::none()).is_printable());
    assert!(!SfMove::new(12, 28, MoveType::Promotion, Piece::none()).is_printable());
    assert!(!SfMove::new(4, 5, MoveType::Castle, Piece::none()).is_printable());
    assert!(!SfMove::new(64, 5, MoveType::Normal, Piece::none()).is_printable());
}
