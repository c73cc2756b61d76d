//! The decisions of a validation run over the games of a file.
use vstd::prelude::*;

use crate::error::Error;
use crate::model::{game_replays, validation_error, GameRecord};
use crate::text::{decimal_digits, push_decimal_u64};

verus! {

/// What a validation run does with the next game read: stop, or count it,
/// giving the new number of games validated.
#[derive(Clone, Copy, Debug, PartialEq, Eq, Structural)]
pub enum ValidateStep {
    Stop,
    Counted(u64),
}

/// Takes the next game of a validation run that has validated `validated`
/// games so far. Once an interrupt is requested the run stops without
/// looking at the game; otherwise the game is validated (see
/// `GameRecord::validate`): a game that fails ends the run with its error,
/// and one that passes is counted.
pub fn validate_next(validated: u64, game: &GameRecord, interrupted: bool) -> (r: Result<ValidateStep, Error>)
    requires
        validated < u64::MAX,
    ensures
        interrupted ==> r == Ok::<ValidateStep, Error>(ValidateStep::Stop),
        !interrupted ==> (r is Ok <==> game_replays(*game)),
        !interrupted && game_replays(*game) ==> r == Ok::<ValidateStep, Error>(
            ValidateStep::Counted((validated + 1) as u64),
        ),
        r matches Err(e) ==> validation_error(*game, e),
{
    if interrupted {
        return Ok(ValidateStep::Stop);
    }
    game.validate()?;
    Ok(ValidateStep::Counted(validated + 1))
}

/// The line that reports how many games were validated.
pub fn validated_report(validated: u64) -> (s: String)
    ensures
        s@ == "validated "@ + decimal_digits(validated as nat) + " games"@,
{
    let mut s = String::from_str("validated ");
    push_decimal_u64(&mut s, validated);
    s.append(" games");
    s
}

} // verus!
