use chess_binpack_utils::error::Error;
use chess_binpack_utils::unique::{count_viri_game, SfUniquePositions, UniqueCounter};

const START: &str = "rnbqkbnr/pppppppp/8/8/8/8/PPPPPPPP/RNBQKBNR w KQkq - 0 1";

fn moves(list: &[&str]) -> Vec<String> {
    list.iter().map(|m| m.to_string()).collect()
}

#[test]
fn counter_counts_distinct_hashes() {
    let mut counter = UniqueCounter::new(None);
    counter.insert(7);
    counter.insert(9);
    counter.insert(7);
    assert_eq!(counter.count(), 2);
    assert!(counter.tick());
    assert_eq!(counter.processed, 1);
}

#[test]
fn counter_stops_at_its_limit() {
    let mut counter = UniqueCounter::new(Some(2));
    assert!(counter.tick());
    assert!(!counter.tick());
}

#[test]
fn viri_game_positions_are_counted_once() {
    let mut counter = UniqueCounter::new(None);
    let game = moves(&["e2e4", "e7e5", "g1f3"]);
    assert!(count_viri_game(&mut counter, START, &game).unwrap());
    assert!(count_viri_game(&mut counter, START, &game).unwrap());
    assert_eq!(counter.count(), 3);
    assert_eq!(counter.processed, 6);
}

#[test]
fn viri_game_count_respects_limit() {
    let mut counter = UniqueCounter::new(Some(2));
    let game = moves(&["e2e4", "e7e5", "g1f3"]);
    assert!(!count_viri_game(&mut counter, START, &game).unwrap());
    assert_eq!(counter.count(), 2);
}

#[test]
fn transpositions_share_a_hash() {
    let mut counter = UniqueCounter::new(None);
    let a = moves(&["g1f3", "g8f6", "b1c3", "b8c6", "e2e4"]);
    let b = moves(&["b1c3", "b8c6", "g1f3", "g8f6", "e2e4"]);
    count_viri_game(&mut counter, START, &a).unwrap();
    count_viri_game(&mut counter, START, &b).unwrap();
    // start, two distinct pairs of intermediate positions, one shared position after four moves
    assert_eq!(counter.count(), 8);
}

#[test]
fn viri_game_with_bad_move_reports_it() {
    let mut counter = UniqueCounter::new(None);
    match count_viri_game(&mut counter, START, &moves(&["e2e5"])) {
        Err(Error::InvalidGameData(m)) => assert_eq!(m, "illegal move in viriformat stream (e2e5): illegal uci"),
        other => panic!("unexpected: {other:?}"),
    }
    match count_viri_game(&mut counter, START, &moves(&["zz"])) {
        Err(Error::InvalidGameData(m)) => assert_eq!(m, "invalid UCI move in viriformat stream (zz): invalid uci"),
        other => panic!("unexpected: {other:?}"),
    }
    assert!(matches!(count_viri_game(&mut counter, "garbage", &moves(&[])), Err(Error::InvalidFen(_))));
}

#[test]
fn sf_entries_are_replayed_from_the_first_fen() {
    let mut unique = SfUniquePositions::new(None);
    let start = Ok(START.to_string());
    for _game in 0..2 {
        assert!(unique.on_entry(&start, "e2e4", true).unwrap());
        assert!(unique.on_entry(&Err("ignored".to_string()), "e7e5", true).unwrap());
        assert!(unique.on_entry(&Err("ignored".to_string()), "g1f3", false).unwrap());
    }
    assert_eq!(unique.count(), 3);
}

#[test]
fn sf_entries_stop_at_the_limit() {
    let mut unique = SfUniquePositions::new(Some(2));
    let start = Ok(START.to_string());
    assert!(unique.on_entry(&start, "e2e4", true).unwrap());
    assert!(!unique.on_entry(&Err(String::new()), "e7e5", true).unwrap());
    assert_eq!(unique.count(), 2);
}

#[test]
fn sf_entry_without_fen_starts_no_game() {
    let mut unique = SfUniquePositions::new(None);
    match unique.on_entry(&Err("bad".to_string()), "e2e4", true) {
        Err(Error::InvalidGameData(m)) => assert_eq!(m, "entry FEN could not be read: bad"),
        other => panic!("unexpected: {other:?}"),
    }
    match unique.on_entry(&Ok("8/8/8/8/8/8/8/8 w - - 0 1".to_string()), "e2e4", true) {
        Err(Error::InvalidGameData(m)) => assert_eq!(m, "invalid position from FEN: 8/8/8/8/8/8/8/8 w - - 0 1"),
        other => panic!("unexpected: {other:?}"),
    }
}

#[test]
fn limit_of_zero_counts_nothing() {
    let mut counter = UniqueCounter::new(Some(0));
    assert!(!count_viri_game(&mut counter, START, &moves(&["e2e4"])).unwrap());
    assert_eq!(counter.count(), 0);
    assert_eq!(counter.processed, 0);

    let mut unique = SfUniquePositions::new(Some(0));
    assert!(!unique.on_entry(&Ok(START.to_string()), "e2e4", true).unwrap());
    assert_eq!(unique.count(), 0);
}

#[test]
fn limit_runs_across_games() {
    let mut counter = UniqueCounter::new(Some(5));
    assert!(count_viri_game(&mut counter, START, &moves(&["e2e4", "e7e5", "g1f3"])).unwrap());
    assert!(!count_viri_game(&mut counter, START, &moves(&["d2d4", "d7d5", "c2c4"])).unwrap());
    // start, e4, e4 e5 from the first game; start again and d4 from the second
    assert_eq!(counter.processed, 5);
    assert_eq!(counter.count(), 4);
    assert!(!count_viri_game(&mut counter, START, &moves(&["c2c4"])).unwrap());
    assert_eq!(counter.count(), 4);
}

#[test]
fn sf_limit_runs_across_games() {
    let mut unique = SfUniquePositions::new(Some(4));
    let start = Ok(START.to_string());
    let none = Err(String::new());
    assert!(unique.on_entry(&start, "e2e4", true).unwrap());
    assert!(unique.on_entry(&none, "e7e5", false).unwrap());
    assert!(unique.on_entry(&start, "d2d4", true).unwrap());
    // the fourth position, after d4, is the last one counted
    assert!(!unique.on_entry(&none, "d7d5", true).unwrap());
    assert_eq!(unique.count(), 3);
    assert!(!unique.on_entry(&start, "c2c4", true).unwrap());
    assert_eq!(unique.count(), 3);
}
