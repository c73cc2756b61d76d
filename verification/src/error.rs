use vstd::prelude::*;

verus! {

/// Every way in which an operation of this library can fail.
///
/// Errors that carry a message from another crate hold it as text.
#[derive(Debug, Clone)]
pub enum Error {
    UnsupportedConversion { from: &'static str, to: &'static str },
    InvalidFormat(String),
    Io { path: String, message: String },
    SfbinpackReader(String),
    SfbinpackWriter(String),
    Viriformat(String),
    InvalidViriformat(String),
    InvalidBulletformat(String),
    InvalidFen(String),
    SfbinpackFen(String),
    SfbinpackPosition(String),
    ViriformatBoard(String),
    UnsupportedOutcome(&'static str),
    UnsupportedCastling(String),
    InvalidGameData(String),
    SignalHandler(String),
    OutputExists(String),
    InvalidSplitCount(usize),
    InvalidLimit(u128),
}

} // verus!
