//! The decisions of streaming conversion: how much of each game is
//! written, and when to stop.
use vstd::prelude::*;

use crate::model::GameRecord;

verus! {

/// How many positions of the next game to write, given how many were
/// written so far and the limit; `None` when the conversion stops.
pub open spec fn step_keep(converted: nat, limit: Option<nat>, len: nat) -> Option<nat> {
    match limit {
        None => Some(len),
        Some(l) => if converted >= l {
            None
        } else if l - converted < len {
            Some((l - converted) as nat)
        } else {
            Some(len)
        },
    }
}

/// The number of positions written of each game, for games of the given
/// lengths, when `converted` positions were written before them.
pub open spec fn plan_from(lengths: Seq<nat>, limit: Option<nat>, converted: nat) -> Seq<nat>
    decreases lengths.len(),
{
    if lengths.len() == 0 {
        seq![]
    } else {
        match step_keep(converted, limit, lengths[0]) {
            None => seq![],
            Some(k) => seq![k] + plan_from(lengths.drop_first(), limit, converted + k),
        }
    }
}

/// The number of positions written of each game of a whole conversion.
pub open spec fn plan(lengths: Seq<nat>, limit: Option<nat>) -> Seq<nat> {
    plan_from(lengths, limit, 0)
}

pub open spec fn total(s: Seq<nat>) -> nat
    decreases s.len(),
{
    if s.len() == 0 {
        0
    } else {
        s[0] + total(s.drop_first())
    }
}

pub open spec fn min_nat(a: nat, b: nat) -> nat {
    if a < b { a } else { b }
}

proof fn lemma_plan_from(lengths: Seq<nat>, limit: Option<nat>, converted: nat)
    requires
        limit matches Some(l) ==> converted <= l,
    ensures
        plan_from(lengths, limit, converted).len() <= lengths.len(),
        forall|i: int| 0 <= i < plan_from(lengths, limit, converted).len()
            ==> #[trigger] plan_from(lengths, limit, converted)[i] <= lengths[i],
        forall|i: int| 0 <= i < plan_from(lengths, limit, converted).len() - 1
            ==> #[trigger] plan_from(lengths, limit, converted)[i] == lengths[i],
        limit is None ==> plan_from(lengths, limit, converted) == lengths,
        limit matches Some(l) ==> converted + total(plan_from(lengths, limit, converted)) == min_nat(
            l,
            converted + total(lengths),
        ),
    decreases lengths.len(),
{
    if lengths.len() > 0 {
        let rest = lengths.drop_first();
        match step_keep(converted, limit, lengths[0]) {
            None => {},
            Some(k) => {
                lemma_plan_from(rest, limit, converted + k);
                let p = plan_from(lengths, limit, converted);
                let q = plan_from(rest, limit, converted + k);
                assert(p == seq![k] + q);
                assert(total(p) == k + total(q)) by {
                    assert(p.drop_first() =~= q);
                }
                assert forall|i: int| 0 <= i < p.len() implies #[trigger] p[i] <= lengths[i] by {
                    if i > 0 {
                        assert(p[i] == q[i - 1]);
                    }
                }
                assert forall|i: int| 0 <= i < p.len() - 1 implies #[trigger] p[i] == lengths[i] by {
                    if i > 0 {
                        assert(p[i] == q[i - 1]);
                    } else {
                        if let Some(l) = limit {
                            if k < lengths[0] {
                                assert(converted + k == l);
                                assert(q.len() == 0) by {
                                    if rest.len() > 0 {
                                        assert(step_keep(converted + k, limit, rest[0]) is None);
                                    }
                                }
                            }
                        }
                    }
                }
                if limit is None {
                    assert(p =~= lengths);
                }
            },
        }
    }
}

/// The positions written never exceed the limit, and none is left out
/// below it: with a limit `l`, a conversion writes `min(l, total)` positions
/// of games holding `total`; without one it writes every position.
pub proof fn law_limit_counts_positions(lengths: Seq<nat>, limit: Option<nat>)
    ensures
        limit matches Some(l) ==> total(plan(lengths, limit)) == min_nat(l, total(lengths)),
        limit is None ==> plan(lengths, limit) == lengths,
{
    lemma_plan_from(lengths, limit, 0);
}

/// Each game is written as a prefix of its positions, and only the last
/// game written can be cut short.
pub proof fn law_only_last_game_truncated(lengths: Seq<nat>, limit: Option<nat>)
    ensures
        plan(lengths, limit).len() <= lengths.len(),
        forall|i: int| 0 <= i < plan(lengths, limit).len() ==> #[trigger] plan(lengths, limit)[i] <= lengths[i],
        forall|i: int| 0 <= i < plan(lengths, limit).len() - 1 ==> #[trigger] plan(lengths, limit)[i] == lengths[i],
{
    lemma_plan_from(lengths, limit, 0);
}

/// What to do with the next game read.
#[derive(Clone, Copy, Debug, PartialEq, Eq, Structural)]
pub enum ConvertStep {
    /// Stop reading and finish the output.
    Stop,
    /// Write the first `keep` positions of the game.
    Write(usize),
}

/// The state of a streaming conversion: the positions written so far and
/// the limit on them.
#[derive(Clone, Copy, Debug)]
pub struct ConvertProgress {
    pub converted: u128,
    pub limit: Option<u128>,
}

pub open spec fn opt_nat(limit: Option<u128>) -> Option<nat> {
    match limit {
        Some(l) => Some(l as nat),
        None => None,
    }
}

impl ConvertProgress {
    pub fn new(limit: Option<u128>) -> (p: ConvertProgress)
        ensures
            p.converted == 0,
            p.limit == limit,
    {
        ConvertProgress { converted: 0, limit }
    }

    /// Whether the limit is reached, so that no further game is read.
    pub fn limit_reached(&self) -> (r: bool)
        ensures
            r == (self.limit matches Some(l) && self.converted >= l),
            r <==> forall|len: nat| #[trigger] step_keep(self.converted as nat, opt_nat(self.limit), len) is None,
    {
        let r = match self.limit {
            Some(l) => self.converted >= l,
            None => false,
        };
        proof {
            if !r {
                assert(step_keep(self.converted as nat, opt_nat(self.limit), 0) is Some);
            }
        }
        r
    }

    /// Decides what to do with the next game, of `positions` positions:
    /// stop when interrupted or when the limit is reached, otherwise write
    /// as many of its positions as the limit leaves room for.
    pub fn on_game(&mut self, positions: usize, interrupted: bool) -> (step: ConvertStep)
        requires
            old(self).converted + positions <= u128::MAX,
        ensures
            final(self).limit == old(self).limit,
            interrupted ==> step == ConvertStep::Stop && final(self).converted == old(self).converted,
            !interrupted ==> match step_keep(old(self).converted as nat, opt_nat(old(self).limit), positions as nat) {
                None => step == ConvertStep::Stop && final(self).converted == old(self).converted,
                Some(k) => step == ConvertStep::Write(k as usize) && final(self).converted == old(self).converted + k,
            },
    {
        if interrupted {
            return ConvertStep::Stop;
        }
        let keep: u128 = match self.limit {
            None => positions as u128,
            Some(limit) => {
                if self.converted >= limit {
                    return ConvertStep::Stop;
                }
                let remaining = limit - self.converted;
                if remaining < positions as u128 {
                    remaining
                } else {
                    positions as u128
                }
            },
        };
        self.converted = self.converted + keep;
        ConvertStep::Write(keep as usize)
    }
}

/// Keeps the first `remaining` positions of a game (all of them when there
/// is no limit).
pub fn truncate_game(game: GameRecord, remaining: Option<u128>) -> (g: GameRecord)
    ensures
        g.initial_fen == game.initial_fen,
        g.result == game.result,
        g.positions@ == match remaining {
            None => game.positions@,
            Some(r) => if r < game.positions@.len() {
                game.positions@.take(r as int)
            } else {
                game.positions@
            },
        },
{
    let mut game = game;
    match remaining {
        None => game,
        Some(remaining) => {
            let len = game.positions.len();
            let keep: usize = if remaining < len as u128 {
                remaining as usize
            } else {
                len
            };
            game.positions.truncate(keep);
            game
        },
    }
}

} // verus!
