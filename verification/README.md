# chess_binpack_utils

Tools for chess training data stored as Stockfish binpacks (`sfbinpack`),
viriformat games and bulletformat positions: conversion between the
formats, unique-position counts, inspection, validation, shuffling and read
benchmarks.

- `src/` is the library, written in Verus: the game model, the move, result
  and score conventions of each encoding, the decisions of streaming
  conversion (limits, truncation, batching), the grouping of binpack entries
  into games, unique-position counting, the steps of a validation run,
  shuffle indexing and the command resolution. Its contracts are proved;
  the calls into `sfbinpack`, `viriformat`, `bulletformat`, `shakmaty`,
  `rand` and `std::path` go
  through small trusted functions whose contracts are documented where
  they stand. `src/roundtrip.rs`, `src/backend.rs`, `src/cli.rs`,
  `src/shuffle.rs`, `src/unique.rs`, `src/viri_game.rs` and `src/sf_game.rs`
  hold the proved laws (what survives a write and a read, how limits count,
  what a unique count counts, which conversions are refused, how outputs
  take turns).
- `app/` is the command-line program: argument parsing, files, terminal
  output, the interrupt handler and timing.
- `tests/` exercises the library with the real outside crates.
