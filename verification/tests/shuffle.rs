use chess_binpack_utils::error::Error;
use chess_binpack_utils::shuffle::{output_paths, shuffle_index, RoundRobin, SfChunkIndex};

#[test]
fn single_output_keeps_the_path() {
    assert_eq!(output_paths("data/out.binpack", 1).unwrap(), vec!["data/out.binpack".to_string()]);
}

#[test]
fn split_outputs_are_numbered() {
    assert_eq!(
        output_paths("data/out.binpack", 3).unwrap(),
        vec!["data/out_0.binpack".to_string(), "data/out_1.binpack".to_string(), "data/out_2.binpack".to_string()]
    );
    assert_eq!(output_paths("plain", 2).unwrap(), vec!["plain_0".to_string(), "plain_1".to_string()]);
}

#[test]
fn zero_outputs_are_rejected() {
    assert!(matches!(output_paths("out.binpack", 0), Err(Error::InvalidSplitCount(0))));
}

#[test]
fn chunk_headers_are_indexed() {
    let mut index = SfChunkIndex::new();
    assert_eq!(index.on_header(&[b'B', b'I', b'N', b'P', 16, 0, 0, 0]).unwrap(), 16);
    assert_eq!(index.on_header(&[b'B', b'I', b'N', b'P', 0, 1, 0, 0]).unwrap(), 256);
    assert_eq!(index.chunks, vec![(0, 24), (24, 264)]);
    assert_eq!(index.offset, 288);
}

#[test]
fn bad_chunk_magic_is_reported_with_its_offset() {
    let mut index = SfChunkIndex::new();
    index.on_header(&[b'B', b'I', b'N', b'P', 4, 0, 0, 0]).unwrap();
    match index.on_header(&[b'X', b'I', b'N', b'P', 4, 0, 0, 0]) {
        Err(Error::InvalidGameData(m)) => assert_eq!(m, "invalid sfbinpack chunk magic at byte offset 12"),
        other => panic!("unexpected: {other:?}"),
    }
    assert_eq!(index.chunks.len(), 1);
}

#[test]
fn outputs_take_turns() {
    let mut turns = RoundRobin::new(3);
    let taken: Vec<usize> = (0..7).map(|_| turns.take_turn()).collect();
    assert_eq!(taken, vec![0, 1, 2, 0, 1, 2, 0]);
}

#[test]
fn shuffling_keeps_every_item() {
    let original: Vec<(u64, u64)> = (0..50).map(|i| (i * 10, i + 1)).collect();
    let mut a = original.clone();
    shuffle_index(&mut a, Some(42));
    let mut b = original.clone();
    shuffle_index(&mut b, Some(42));
    assert_eq!(a, b);
    assert_ne!(a, original);
    let mut sorted = a.clone();
    sorted.sort();
    assert_eq!(sorted, original);
    let mut c = original.clone();
    shuffle_index(&mut c, None);
    c.sort();
    assert_eq!(c, original);
}
