//! Conversion, inspection and bookkeeping logic for chess training data
//! stored as Stockfish binpacks, viriformat games and bulletformat boards.

pub mod chess;
pub mod error;
pub mod model;
pub mod text;
pub mod sf;
pub mod convert;
pub mod viri;
pub mod backend;
pub mod paths;
pub mod cli;
pub mod shuffle;
pub mod inspect;
pub mod viri_game;
pub mod sf_game;
pub mod bullet;
pub mod shak;
pub mod unique;
pub mod roundtrip;
pub mod fen_scan;
pub mod bullet_scan;
pub mod validation;
