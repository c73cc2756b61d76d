//! Counting the distinct positions of a file of games, by Zobrist hash.
use vstd::prelude::*;
use vstd::std_specs::hash::group_hash_axioms;
use vstd::string::*;

use std::collections::HashSet;

use shakmaty::Chess;

use crate::error::Error;
use crate::shak::{
    fen_parses, lemma_replay_prefix, play_uci, replay, start_position, start_spec, step_spec, uci_parses, zobrist,
    zobrist64,
};
use crate::text::concat;

verus! {

broadcast use {vstd::string::group_string_axioms, group_hash_axioms};

/// The distinct hashes seen, how many positions were counted, and the
/// limit on that number.
pub struct UniqueCounter {
    pub seen: HashSet<u64>,
    pub processed: usize,
    pub limit: Option<usize>,
}

impl UniqueCounter {
    /// The set of hashes seen is finite.
    pub open spec fn wf(&self) -> bool {
        self.seen@.finite()
    }

    pub fn new(limit: Option<usize>) -> (c: UniqueCounter)
        ensures
            c.wf(),
            c.seen@ == Set::<u64>::empty(),
            c.processed == 0,
            c.limit == limit,
    {
        UniqueCounter { seen: HashSet::new(), processed: 0, limit }
    }

    /// Notes the hash of a position.
    pub fn insert(&mut self, hash: u64)
        requires
            old(self).wf(),
        ensures
            final(self).wf(),
            final(self).seen@ == old(self).seen@.insert(hash),
            final(self).processed == old(self).processed,
            final(self).limit == old(self).limit,
    {
        self.seen.insert(hash);
    }

    /// Counts one more position; returns whether counting goes on, which
    /// it does until the limit is reached.
    pub fn tick(&mut self) -> (more: bool)
        requires
            old(self).processed < usize::MAX,
        ensures
            final(self).seen@ == old(self).seen@,
            final(self).processed == old(self).processed + 1,
            final(self).limit == old(self).limit,
            more == !(old(self).limit matches Some(l) && final(self).processed >= l),
    {
        self.processed = self.processed + 1;
        match self.limit {
            Some(l) => self.processed < l,
            None => true,
        }
    }

    /// Whether the limit is reached: no more position is counted.
    pub open spec fn reached(&self) -> bool {
        self.limit matches Some(l) && self.processed >= l
    }

    /// Checks `reached`.
    pub fn limit_reached(&self) -> (r: bool)
        ensures
            r == self.reached(),
    {
        match self.limit {
            Some(l) => self.processed >= l,
            None => false,
        }
    }

    /// The number of distinct positions seen.
    pub fn count(&self) -> (n: u64)
        ensures
            n == self.seen@.len(),
    {
        self.seen.len() as u64
    }
}

/// Counts the distinct positions of binpack entries, replaying each game
/// with shakmaty from the FEN of its first entry.
pub struct SfUniquePositions {
    pub counter: UniqueCounter,
    pub position: Option<Chess>,
}

impl SfUniquePositions {
    pub fn new(limit: Option<usize>) -> (s: SfUniquePositions)
        ensures
            s.counter.wf(),
            s.counter.seen@ == Set::<u64>::empty(),
            s.counter.processed == 0,
            s.counter.limit == limit,
            s.position is None,
    {
        SfUniquePositions { counter: UniqueCounter::new(limit), position: None }
    }

    /// The position the next entry is played from: the game's current
    /// position, or for a new game the position of the entry's FEN.
    pub open spec fn entry_position(self, fen: Result<String, String>) -> Option<Chess> {
        match self.position {
            Some(p) => Some(p),
            None => match fen {
                Ok(f) => start_spec(f@),
                Err(_) => None,
            },
        }
    }

    /// Takes the next entry: its position's FEN (or the binpack library's
    /// error text for it), its move in UCI text, and whether the next entry
    /// continues the game. Once the limit is reached nothing more is
    /// counted. Otherwise a game starts from the FEN of its first entry;
    /// each entry's position is hashed and counted, then its move is played
    /// when the game goes on. Returns whether counting goes on.
    pub fn on_entry(&mut self, fen: &Result<String, String>, uci: &str, continues: bool) -> (r: Result<
        bool,
        Error,
    >)
        requires
            old(self).counter.wf(),
            old(self).counter.processed < usize::MAX,
        ensures
            final(self).counter.wf(),
            final(self).counter.limit == old(self).counter.limit,
            old(self).counter.reached() ==> {
                &&& r == Ok::<bool, Error>(false)
                &&& final(self).counter.seen@ == old(self).counter.seen@
                &&& final(self).counter.processed == old(self).counter.processed
                &&& final(self).position == old(self).position
            },
            !old(self).counter.reached() ==> match old(self).entry_position(*fen) {
                None => match *fen {
                    Err(t) => r matches Err(Error::InvalidGameData(m)) && m@ == "entry FEN could not be read: "@
                        + t@,
                    Ok(f) => if fen_parses(f@) {
                        r matches Err(Error::InvalidGameData(m)) && m@ == "invalid position from FEN: "@ + f@
                    } else {
                        r matches Err(Error::InvalidFen(m)) && m@ == f@
                    },
                },
                Some(p) => {
                    let more = !(old(self).counter.limit matches Some(l) && old(self).counter.processed + 1 >= l);
                    let counted = {
                        &&& final(self).counter.seen@ == old(self).counter.seen@.insert(zobrist(p))
                        &&& final(self).counter.processed == old(self).counter.processed + 1
                    };
                    if !continues {
                        r == Ok::<bool, Error>(more) && counted && final(self).position is None
                    } else {
                        match step_spec(p, uci@) {
                            Some(q) => r == Ok::<bool, Error>(more) && counted && final(self).position == Some(q),
                            None => if uci_parses(uci@) {
                                r matches Err(Error::InvalidGameData(m)) && m@
                                    == "illegal move in sfbinpack stream: illegal uci"@
                            } else {
                                r matches Err(Error::InvalidGameData(m)) && m@
                                    == "invalid UCI move in sfbinpack stream: invalid uci"@
                            },
                        }
                    }
                },
            },
    {
        if self.counter.limit_reached() {
            return Ok(false);
        }
        proof {
            reveal_strlit("entry FEN could not be read: ");
            reveal_strlit("invalid position from FEN: ");
            reveal_strlit("illegal move in sfbinpack stream: illegal uci");
            reveal_strlit("illegal move in sfbinpack stream: ");
            reveal_strlit("illegal uci");
            reveal_strlit("invalid UCI move in sfbinpack stream: invalid uci");
            reveal_strlit("invalid UCI move in sfbinpack stream: ");
            reveal_strlit("invalid uci");
        }
        let mut position = match self.position.take() {
            Some(p) => p,
            None => {
                let fen_text = match fen {
                    Ok(f) => f,
                    Err(t) => return Err(
                        Error::InvalidGameData(concat("entry FEN could not be read: ", t.as_str())),
                    ),
                };
                start_position(fen_text.as_str(), "invalid position from FEN: ")?
            },
        };
        let hash = zobrist64(&position);
        self.counter.insert(hash);
        if continues {
            play_uci(
                &mut position,
                uci,
                "invalid UCI move in sfbinpack stream: ",
                "illegal move in sfbinpack stream: ",
            )?;
            self.position = Some(position);
        }
        Ok(self.counter.tick())
    }

    pub fn count(&self) -> (n: u64)
        ensures
            n == self.counter.seen@.len(),
    {
        self.counter.count()
    }
}

/// The hashes of the positions before the first `k` moves of a game
/// played from `start` (those that the game reaches).
pub open spec fn hashes_before(start: Chess, moves: Seq<Seq<char>>, k: nat) -> Set<u64>
    decreases k,
{
    if k == 0 {
        Set::empty()
    } else {
        let prior = hashes_before(start, moves, (k - 1) as nat);
        match replay(start, moves.take(k - 1)) {
            Some(p) => prior.insert(zobrist(p)),
            None => prior,
        }
    }
}

/// How many positions of a game of `len` moves are counted by a counter
/// that has counted `processed` positions under `limit`.
pub open spec fn counted(processed: nat, limit: Option<usize>, len: nat) -> nat {
    match limit {
        Some(l) => if processed >= l {
            0
        } else if l - processed < len {
            (l - processed) as nat
        } else {
            len
        },
        None => len,
    }
}

/// Whether the limit is reached within a game of `len` moves, so that
/// counting stops there.
pub open spec fn stops_within(processed: nat, limit: Option<usize>, len: nat) -> bool {
    limit matches Some(l) && processed + len >= l
}

/// The error of a move of a viriformat game that cannot be played: one
/// for a text that does not read as a UCI move, one for a move that is not
/// legal.
pub open spec fn viri_move_error(uci: Seq<char>) -> Seq<char> {
    if uci_parses(uci) {
        "illegal move in viriformat stream ("@ + uci + "): illegal uci"@
    } else {
        "invalid UCI move in viriformat stream ("@ + uci + "): invalid uci"@
    }
}

/// How many of the first `k` moves are played in turn from `start` before
/// one cannot be: the index of the first that cannot, or `k` when all can.
pub open spec fn playable_moves(start: Chess, moves: Seq<Seq<char>>, k: nat) -> nat
    decreases k,
{
    if k == 0 || replay(start, moves.take(k as int)) is Some {
        k
    } else {
        playable_moves(start, moves, (k - 1) as nat)
    }
}

proof fn lemma_playable_moves(start: Chess, moves: Seq<Seq<char>>, i: nat, p: nat)
    requires
        i < p <= moves.len(),
        replay(start, moves.take(i as int)) is Some,
        replay(start, moves.take(i + 1int)) is None,
    ensures
        playable_moves(start, moves, p) == i,
    decreases p - i,
{
    if p > i + 1 {
        if replay(start, moves.take(p as int)) is Some {
            lemma_replay_prefix(start, moves, i + 1int, p as int);
        }
        lemma_playable_moves(start, moves, i, (p - 1) as nat);
        assert(playable_moves(start, moves, p) == playable_moves(start, moves, (p - 1) as nat));
    } else {
        assert(p == i + 1);
        assert(moves.take(p as int) == moves.take(i + 1int));
        assert(playable_moves(start, moves, p) == playable_moves(start, moves, i));
        assert(playable_moves(start, moves, i) == i);
    }
}

/// Counts the distinct positions of one viriformat game: its starting FEN
/// and its moves in UCI text. Nothing is counted once the limit is reached.
/// Otherwise the game is started from the FEN, and the position before each
/// move is hashed and counted, and the move played, until the limit is
/// reached (the move after the last counted position is then not played).
/// Returns whether counting goes on.
pub fn count_viri_game(counter: &mut UniqueCounter, fen: &str, moves: &Vec<String>) -> (r: Result<bool, Error>)
    requires
        old(counter).wf(),
        old(counter).processed + moves@.len() < usize::MAX,
    ensures
        final(counter).wf(),
        final(counter).limit == old(counter).limit,
        old(counter).reached() ==> {
            &&& r == Ok::<bool, Error>(false)
            &&& final(counter).seen@ == old(counter).seen@
            &&& final(counter).processed == old(counter).processed
        },
        !old(counter).reached() ==> match start_spec(fen@) {
            None => if fen_parses(fen@) {
                r matches Err(Error::InvalidGameData(m)) && m@ == "unable to convert FEN to position: "@ + fen@
            } else {
                r matches Err(Error::InvalidFen(m)) && m@ == fen@
            },
            Some(start) => {
                let ucis = moves@.map_values(|m: String| m@);
                let len = moves@.len();
                let k = counted(old(counter).processed as nat, old(counter).limit, len);
                let stops = stops_within(old(counter).processed as nat, old(counter).limit, len);
                let played = if stops { k - 1 } else { len as int };
                &&& r is Ok <==> replay(start, ucis.take(played)) is Some
                &&& r is Ok ==> {
                    &&& r == Ok::<bool, Error>(!stops)
                    &&& final(counter).processed == old(counter).processed + k
                    &&& final(counter).seen@ == old(counter).seen@.union(hashes_before(start, ucis, k))
                }
                &&& r matches Err(e) ==> e matches Error::InvalidGameData(m) && m@ == viri_move_error(
                    ucis[playable_moves(start, ucis, played as nat) as int],
                )
            },
        },
{
    if counter.limit_reached() {
        return Ok(false);
    }
    let mut position = start_position(fen, "unable to convert FEN to position: ")?;
    let ghost start = position;
    let ghost ucis = moves@.map_values(|m: String| m@);
    let n = moves.len();
    let ghost k = counted(old(counter).processed as nat, old(counter).limit, n as nat);
    let ghost stops = stops_within(old(counter).processed as nat, old(counter).limit, n as nat);
    let mut i: usize = 0;
    let ghost start_seen = counter.seen@;
    let ghost start_processed = counter.processed;
    proof {
        assert(ucis.take(0) =~= Seq::<Seq<char>>::empty());
        assert(start_seen.union(hashes_before(start, ucis, 0)) =~= start_seen);
    }
    while i < n
        invariant
            n == moves@.len(),
            ucis == moves@.map_values(|m: String| m@),
            ucis.len() == n,
            i <= n,
            counter.limit == old(counter).limit,
            counter.wf(),
            start_seen == old(counter).seen@,
            start_processed == old(counter).processed,
            start_processed + n < usize::MAX,
            start_spec(fen@) == Some(start),
            k == counted(start_processed as nat, counter.limit, n as nat),
            stops == stops_within(start_processed as nat, counter.limit, n as nat),
            !counter.reached(),
            counter.processed == start_processed + i,
            counter.seen@ == start_seen.union(hashes_before(start, ucis, i as nat)),
            replay(start, ucis.take(i as int)) == Some(position),
        decreases n - i,
    {
        let hash = zobrist64(&position);
        counter.insert(hash);
        proof {
            assert(hashes_before(start, ucis, (i + 1) as nat) == hashes_before(start, ucis, i as nat).insert(
                zobrist(position),
            ));
            assert(counter.seen@ =~= start_seen.union(hashes_before(start, ucis, (i + 1) as nat)));
        }
        if !counter.tick() {
            proof {
                assert(stops);
                assert(k == i + 1);
            }
            return Ok(false);
        }
        let uci = moves[i].as_str();
        let mut invalid = String::from_str("invalid UCI move in viriformat stream (");
        invalid.append(uci);
        invalid.append("): ");
        let mut illegal = String::from_str("illegal move in viriformat stream (");
        illegal.append(uci);
        illegal.append("): ");
        let played = play_uci(&mut position, uci, invalid.as_str(), illegal.as_str());
        proof {
            assert(ucis[i as int] == uci@);
            assert(ucis.take(i as int + 1).drop_last() =~= ucis.take(i as int));
            assert(ucis.take(i as int + 1).last() == uci@);
        }
        if played.is_err() {
            proof {
                let p = if stops { k - 1 } else { n as int };
                assert(p >= i + 1);
                if replay(start, ucis.take(p)) is Some {
                    lemma_replay_prefix(start, ucis, i as int + 1, p);
                }
                lemma_playable_moves(start, ucis, i as nat, p as nat);
                reveal_strlit("): ");
                reveal_strlit("): illegal uci");
                reveal_strlit("illegal uci");
                reveal_strlit("): invalid uci");
                reveal_strlit("invalid uci");
                assert(illegal@ == "illegal move in viriformat stream ("@ + uci@ + "): "@);
                assert(invalid@ == "invalid UCI move in viriformat stream ("@ + uci@ + "): "@);
                assert(illegal@ + "illegal uci"@ =~= "illegal move in viriformat stream ("@ + uci@
                    + "): illegal uci"@);
                assert(invalid@ + "invalid uci"@ =~= "invalid UCI move in viriformat stream ("@ + uci@
                    + "): invalid uci"@);
            }
            return played.map(|_u: ()| true);
        }
        i += 1;
    }
    proof {
        assert(!stops);
        assert(k == n);
        assert(ucis.take(n as int) =~= ucis);
    }
    Ok(true)
}

/// The hashes of the positions before the first `k` moves of a game played
/// from `start`, in the order the game reaches them.
pub open spec fn hash_seq(start: Chess, moves: Seq<Seq<char>>, k: nat) -> Seq<u64>
    decreases k,
{
    if k == 0 {
        Seq::empty()
    } else {
        let prior = hash_seq(start, moves, (k - 1) as nat);
        match replay(start, moves.take(k - 1)) {
            Some(p) => prior.push(zobrist(p)),
            None => prior,
        }
    }
}

/// The positions of a stream of games, each given by its starting position
/// and its moves in UCI text, one game after another: the hashes of the
/// positions before each move.
pub open spec fn stream_hashes(games: Seq<(Chess, Seq<Seq<char>>)>) -> Seq<u64>
    decreases games.len(),
{
    if games.len() == 0 {
        Seq::empty()
    } else {
        hash_seq(games[0].0, games[0].1, games[0].1.len()) + stream_hashes(games.drop_first())
    }
}

/// The hashes seen after counting a stream of games one `count_viri_game`
/// call after another, starting from `seen` with `processed` positions
/// counted, each call succeeding: nothing once the limit is reached, and
/// no game after the one within which it is reached.
pub open spec fn stream_seen(
    games: Seq<(Chess, Seq<Seq<char>>)>,
    limit: Option<usize>,
    processed: nat,
    seen: Set<u64>,
) -> Set<u64>
    decreases games.len(),
{
    if games.len() == 0 || (limit matches Some(l) && processed >= l) {
        seen
    } else {
        let len = games[0].1.len();
        let next = seen.union(hashes_before(games[0].0, games[0].1, counted(processed, limit, len)));
        if stops_within(processed, limit, len) {
            next
        } else {
            stream_seen(games.drop_first(), limit, processed + len, next)
        }
    }
}

/// How many positions of a stream of `total` positions a counter that has
/// counted `processed` still counts under `limit`.
pub open spec fn budget(limit: Option<usize>, processed: nat, total: nat) -> nat {
    match limit {
        Some(l) => if processed >= l {
            0
        } else if l - processed < total {
            (l - processed) as nat
        } else {
            total
        },
        None => total,
    }
}

/// Every move of every game is legal in turn.
pub open spec fn stream_replays(games: Seq<(Chess, Seq<Seq<char>>)>) -> bool {
    forall|i: int| 0 <= i < games.len() ==> replay(#[trigger] games[i].0, games[i].1) is Some
}

proof fn lemma_concat_to_set(a: Seq<u64>, b: Seq<u64>)
    ensures
        (a + b).to_set() == a.to_set().union(b.to_set()),
{
    assert forall|x: u64| (a + b).contains(x) <==> a.contains(x) || b.contains(x) by {
        if (a + b).contains(x) {
            let i = choose|i: int| 0 <= i < (a + b).len() && (a + b)[i] == x;
            if i < a.len() {
                assert(a[i] == x);
            } else {
                assert(b[i - a.len()] == x);
            }
        }
        if a.contains(x) {
            let i = choose|i: int| 0 <= i < a.len() && a[i] == x;
            assert((a + b)[i] == x);
        }
        if b.contains(x) {
            let i = choose|i: int| 0 <= i < b.len() && b[i] == x;
            assert((a + b)[i + a.len()] == x);
        }
    }
    assert((a + b).to_set() =~= a.to_set().union(b.to_set()));
}

proof fn lemma_hashes_before_to_set(start: Chess, moves: Seq<Seq<char>>, k: nat)
    ensures
        hashes_before(start, moves, k) == hash_seq(start, moves, k).to_set(),
    decreases k,
{
    if k == 0 {
        assert(hash_seq(start, moves, 0).to_set() =~= Set::<u64>::empty());
    } else {
        lemma_hashes_before_to_set(start, moves, (k - 1) as nat);
        let prior = hash_seq(start, moves, (k - 1) as nat);
        match replay(start, moves.take(k - 1)) {
            Some(p) => {
                prior.lemma_push_to_set_commute(zobrist(p));
            },
            None => {},
        }
    }
}

proof fn lemma_hash_seq_prefix(start: Chess, moves: Seq<Seq<char>>, k: nat, n: nat)
    requires
        k <= n <= moves.len(),
        replay(start, moves.take(n as int)) is Some,
    ensures
        hash_seq(start, moves, n).len() == n,
        hash_seq(start, moves, n).take(k as int) == hash_seq(start, moves, k),
    decreases n,
{
    if n > 0 {
        lemma_replay_prefix(start, moves, n - 1, n as int);
        if k < n {
            lemma_hash_seq_prefix(start, moves, k, (n - 1) as nat);
        } else {
            lemma_hash_seq_prefix(start, moves, (n - 1) as nat, (n - 1) as nat);
        }
        let prior = hash_seq(start, moves, (n - 1) as nat);
        assert(hash_seq(start, moves, n) == prior.push(zobrist(replay(start, moves.take(n - 1)).unwrap())));
        if k < n {
            assert(prior.push(zobrist(replay(start, moves.take(n - 1)).unwrap())).take(k as int) =~= prior.take(
                k as int,
            ));
        }
    }
    assert(hash_seq(start, moves, n).take(n as int) =~= hash_seq(start, moves, n));
}

proof fn lemma_stream_seen(games: Seq<(Chess, Seq<Seq<char>>)>, limit: Option<usize>, processed: nat, seen: Set<u64>)
    requires
        stream_replays(games),
    ensures
        stream_seen(games, limit, processed, seen) == seen.union(
            stream_hashes(games).take(budget(limit, processed, stream_hashes(games).len()) as int).to_set(),
        ),
    decreases games.len(),
{
    let all = stream_hashes(games);
    let m = budget(limit, processed, all.len());
    if games.len() == 0 || (limit matches Some(l) && processed >= l) {
        assert(all.take(m as int).to_set() =~= Set::<u64>::empty());
        assert(seen.union(Set::<u64>::empty()) =~= seen);
    } else {
        let (start, moves) = games[0];
        let len = moves.len();
        let rest = games.drop_first();
        assert(stream_replays(rest)) by {
            assert forall|i: int| 0 <= i < rest.len() implies replay(#[trigger] rest[i].0, rest[i].1) is Some by {
                assert(rest[i] == games[i + 1]);
            }
        }
        assert(replay(start, moves) is Some);
        assert(moves.take(len as int) =~= moves);
        let a = hash_seq(start, moves, len);
        let b = stream_hashes(rest);
        let k = counted(processed, limit, len);
        lemma_hash_seq_prefix(start, moves, k, len);
        lemma_hashes_before_to_set(start, moves, k);
        assert(all == a + b);
        let next = seen.union(hashes_before(start, moves, k));
        if stops_within(processed, limit, len) {
            assert(m == k);
            assert(all.take(m as int) =~= a.take(k as int));
            assert(next =~= seen.union(all.take(m as int).to_set()));
        } else {
            lemma_stream_seen(rest, limit, processed + len, next);
            let m2 = budget(limit, processed + len, b.len());
            assert(k == len);
            assert(m == len + m2);
            assert(all.take(m as int) =~= a + b.take(m2 as int));
            lemma_concat_to_set(a, b.take(m2 as int));
            assert(a.take(k as int) =~= a);
            assert(next.union(b.take(m2 as int).to_set()) =~= seen.union(all.take(m as int).to_set()));
        }
    }
}

/// The unique count of a stream: counting a stream of games whose moves
/// are all legal, one `count_viri_game` call after another from a new
/// counter, leaves seen exactly the distinct hashes of the first positions
/// of the stream, as many as the limit allows (all of them without one);
/// with a limit of 0, none.
pub proof fn law_unique_stream(games: Seq<(Chess, Seq<Seq<char>>)>, limit: Option<usize>)
    requires
        stream_replays(games),
    ensures
        stream_seen(games, limit, 0, Set::empty()) == stream_hashes(games).take(
            budget(limit, 0, stream_hashes(games).len()) as int,
        ).to_set(),
        limit == Some(0usize) ==> stream_seen(games, limit, 0, Set::empty()) == Set::<u64>::empty(),
{
    lemma_stream_seen(games, limit, 0, Set::empty());
    let t = stream_hashes(games).take(budget(limit, 0, stream_hashes(games).len()) as int).to_set();
    assert(Set::<u64>::empty().union(t) =~= t);
    if limit == Some(0usize) {
        assert(stream_seen(games, limit, 0, Set::empty()) == Set::<u64>::empty());
    }
}

/// The entries of one binpack game as the counter takes them: for each
/// move, the position the game starts from (the position of the entry's
/// FEN, read at the first entry only), the move, and whether the next
/// entry continues the game.
pub open spec fn sf_game_entries(start: Chess, moves: Seq<Seq<char>>) -> Seq<(Chess, Seq<char>, bool)> {
    Seq::new(moves.len(), |i: int| (start, moves[i], i + 1 < moves.len()))
}

/// The entries of a stream of binpack games, one game after another.
pub open spec fn sf_stream_entries(games: Seq<(Chess, Seq<Seq<char>>)>) -> Seq<(Chess, Seq<char>, bool)>
    decreases games.len(),
{
    if games.len() == 0 {
        Seq::empty()
    } else {
        sf_game_entries(games[0].0, games[0].1) + sf_stream_entries(games.drop_first())
    }
}

/// The hashes seen after taking entries one `SfUniquePositions::on_entry`
/// call after another, from the game position `position`, with `processed`
/// positions counted and `seen` seen: nothing once the limit is reached;
/// otherwise the entry's position is counted, and the next entry is taken
/// from the position after its move, or from a new game's start where the
/// game ends. Counting stops at the limit, and at a move that cannot be
/// played (where the call fails).
pub open spec fn sf_stream_seen(
    entries: Seq<(Chess, Seq<char>, bool)>,
    limit: Option<usize>,
    position: Option<Chess>,
    processed: nat,
    seen: Set<u64>,
) -> Set<u64>
    decreases entries.len(),
{
    if entries.len() == 0 || (limit matches Some(l) && processed >= l) {
        seen
    } else {
        let (start, uci, continues) = entries[0];
        let p = match position {
            Some(q) => q,
            None => start,
        };
        let next = seen.insert(zobrist(p));
        if limit matches Some(l) && processed + 1 >= l {
            next
        } else if !continues {
            sf_stream_seen(entries.drop_first(), limit, None, processed + 1, next)
        } else {
            match step_spec(p, uci) {
                Some(q) => sf_stream_seen(entries.drop_first(), limit, Some(q), processed + 1, next),
                None => next,
            }
        }
    }
}

/// Every game has an entry, and every move but the last entry's (which is
/// not played) is legal in turn.
pub open spec fn sf_stream_replays(games: Seq<(Chess, Seq<Seq<char>>)>) -> bool {
    forall|i: int|
        0 <= i < games.len() ==> games[i].1.len() > 0 && replay(#[trigger] games[i].0, games[i].1.drop_last()) is Some
}

proof fn lemma_sf_hash_at(start: Chess, moves: Seq<Seq<char>>, i: int)
    requires
        0 <= i < moves.len(),
        replay(start, moves.drop_last()) is Some,
    ensures
        hash_seq(start, moves, moves.len()).len() == moves.len(),
        replay(start, moves.take(i)) is Some,
        hash_seq(start, moves, moves.len())[i] == zobrist(replay(start, moves.take(i)).unwrap()),
{
    let n = moves.len();
    assert(moves.drop_last() =~= moves.take(n - 1));
    lemma_hash_seq_prefix(start, moves, (n - 1) as nat, (n - 1) as nat);
    let last = hash_seq(start, moves, (n - 1) as nat);
    let z = zobrist(replay(start, moves.take(n - 1)).unwrap());
    assert(hash_seq(start, moves, n) == last.push(z));
    lemma_replay_prefix(start, moves, i, n - 1);
    if i < n - 1 {
        lemma_hash_seq_prefix(start, moves, (i + 1) as nat, (n - 1) as nat);
        lemma_hash_seq_prefix(start, moves, i as nat, i as nat);
        let h = hash_seq(start, moves, (i + 1) as nat);
        assert(h == hash_seq(start, moves, i as nat).push(zobrist(replay(start, moves.take(i)).unwrap())));
        assert(last.take(i + 1) == h);
        assert(last.take(i + 1)[i] == last[i]);
        assert(last.push(z)[i] == last[i]);
    } else {
        assert(last.push(z)[i] == z);
    }
}

proof fn lemma_sf_stream_seen(
    games: Seq<(Chess, Seq<Seq<char>>)>,
    i: nat,
    limit: Option<usize>,
    position: Option<Chess>,
    processed: nat,
    seen: Set<u64>,
)
    requires
        games.len() > 0,
        sf_stream_replays(games),
        i < games[0].1.len(),
        position == (if i == 0 {
            None
        } else {
            replay(games[0].0, games[0].1.take(i as int))
        }),
    ensures
        ({
            let (start, moves) = games[0];
            let n = moves.len();
            let later = stream_hashes(games.drop_first());
            let rest = hash_seq(start, moves, n).subrange(i as int, n as int) + later;
            sf_stream_seen(
                sf_game_entries(start, moves).subrange(i as int, n as int) + sf_stream_entries(games.drop_first()),
                limit,
                position,
                processed,
                seen,
            ) == seen.union(rest.take(budget(limit, processed, rest.len()) as int).to_set())
        }),
    decreases games.len(), games[0].1.len() - i,
{
    let (start, moves) = games[0];
    let n = moves.len();
    let others = games.drop_first();
    let later = stream_hashes(others);
    let x = hash_seq(start, moves, n);
    assert(replay(games[0].0, games[0].1.drop_last()) is Some);
    lemma_sf_hash_at(start, moves, i as int);
    let rest = x.subrange(i as int, n as int) + later;
    let entries = sf_game_entries(start, moves).subrange(i as int, n as int) + sf_stream_entries(others);
    let m = budget(limit, processed, rest.len());
    assert(sf_stream_replays(others)) by {
        assert forall|j: int| 0 <= j < others.len() implies others[j].1.len() > 0 && replay(
            #[trigger] others[j].0,
            others[j].1.drop_last(),
        ) is Some by {
            assert(others[j] == games[j + 1]);
        }
    }
    assert(moves.take(0) =~= Seq::<Seq<char>>::empty());
    let q = replay(start, moves.take(i as int)).unwrap();
    assert(entries[0] == (start, moves[i as int], i + 1 < n));
    let p = match position {
        Some(r) => r,
        None => start,
    };
    assert(p == q);
    assert(x[i as int] == zobrist(q));
    assert(rest[0] == zobrist(q));
    let next = seen.insert(zobrist(q));
    if limit matches Some(l) && processed >= l {
        assert(rest.take(m as int).to_set() =~= Set::<u64>::empty());
        assert(seen.union(Set::<u64>::empty()) =~= seen);
        assert(sf_stream_seen(entries, limit, position, processed, seen) == seen);
    } else if limit matches Some(l) && processed + 1 >= l {
        assert(sf_stream_seen(entries, limit, position, processed, seen) == next);
        assert(m == 1);
        assert(rest.take(1) =~= seq![zobrist(q)]);
        assert(seq![zobrist(q)].to_set() =~= Set::<u64>::empty().insert(zobrist(q))) by {
            Seq::<u64>::empty().lemma_push_to_set_commute(zobrist(q));
            assert(Seq::<u64>::empty().push(zobrist(q)) =~= seq![zobrist(q)]);
            assert(Seq::<u64>::empty().to_set() =~= Set::<u64>::empty());
        }
        assert(next =~= seen.union(rest.take(m as int).to_set()));
    } else {
        let tail = rest.drop_first();
        let m2 = budget(limit, processed + 1, tail.len());
        assert(m == 1 + m2);
        assert(rest.take(m as int) =~= seq![zobrist(q)] + tail.take(m2 as int));
        lemma_concat_to_set(seq![zobrist(q)], tail.take(m2 as int));
        assert(seq![zobrist(q)].to_set() =~= Set::<u64>::empty().insert(zobrist(q))) by {
            Seq::<u64>::empty().lemma_push_to_set_commute(zobrist(q));
            assert(Seq::<u64>::empty().push(zobrist(q)) =~= seq![zobrist(q)]);
            assert(Seq::<u64>::empty().to_set() =~= Set::<u64>::empty());
        }
        let goal = seen.union(rest.take(m as int).to_set());
        assert(goal =~= next.union(tail.take(m2 as int).to_set()));
        if i + 1 < n {
            assert(moves.take(i + 1int).drop_last() =~= moves.take(i as int));
            assert(moves.take(i + 1int).last() == moves[i as int]);
            assert(step_spec(q, moves[i as int]) == replay(start, moves.take(i + 1int)));
            assert(moves.drop_last() =~= moves.take(n - 1));
            lemma_replay_prefix(start, moves, i + 1int, n - 1);
            assert(entries.drop_first() =~= sf_game_entries(start, moves).subrange(i + 1int, n as int)
                + sf_stream_entries(others));
            assert(tail =~= x.subrange(i + 1int, n as int) + later);
            lemma_sf_stream_seen(games, (i + 1) as nat, limit, replay(start, moves.take(i + 1int)), processed + 1, next);
            assert(sf_stream_seen(entries, limit, position, processed, seen) == sf_stream_seen(
                entries.drop_first(),
                limit,
                replay(start, moves.take(i + 1int)),
                processed + 1,
                next,
            ));
        } else {
            assert(entries.drop_first() =~= sf_stream_entries(others));
            assert(tail =~= later);
            assert(sf_stream_seen(entries, limit, position, processed, seen) == sf_stream_seen(
                sf_stream_entries(others),
                limit,
                None,
                processed + 1,
                next,
            ));
            if others.len() == 0 {
                assert(sf_stream_entries(others) =~= Seq::<(Chess, Seq<char>, bool)>::empty());
                assert(tail.take(m2 as int).to_set() =~= Set::<u64>::empty());
                assert(next.union(Set::<u64>::empty()) =~= next);
            } else {
                let (s1, u1) = others[0];
                assert(sf_game_entries(s1, u1).subrange(0, u1.len() as int) =~= sf_game_entries(s1, u1));
                assert(x.len() == n);
                let x1 = hash_seq(s1, u1, u1.len());
                assert(replay(others[0].0, others[0].1.drop_last()) is Some);
                lemma_sf_hash_at(s1, u1, 0);
                assert(x1.subrange(0, u1.len() as int) =~= x1);
                lemma_sf_stream_seen(others, 0, limit, None, processed + 1, next);
                assert(stream_hashes(others) == x1 + stream_hashes(others.drop_first()));
                assert(sf_stream_entries(others) == sf_game_entries(s1, u1) + sf_stream_entries(others.drop_first()));
            }
        }
    }
}

/// The unique count of a binpack stream: taking the entries of a stream of
/// games whose played moves are all legal, one `SfUniquePositions::on_entry`
/// call after another from a new counter, leaves seen exactly the distinct
/// hashes of the first positions of the stream, as many as the limit allows
/// (all of them without one); with a limit of 0, none.
pub proof fn law_sf_unique_stream(games: Seq<(Chess, Seq<Seq<char>>)>, limit: Option<usize>)
    requires
        sf_stream_replays(games),
    ensures
        sf_stream_seen(sf_stream_entries(games), limit, None, 0, Set::empty()) == stream_hashes(games).take(
            budget(limit, 0, stream_hashes(games).len()) as int,
        ).to_set(),
        limit == Some(0usize) ==> sf_stream_seen(sf_stream_entries(games), limit, None, 0, Set::empty())
            == Set::<u64>::empty(),
{
    let all = stream_hashes(games);
    let t = all.take(budget(limit, 0, all.len()) as int).to_set();
    if games.len() == 0 {
        assert(t =~= Set::<u64>::empty());
    } else {
        let (s, u) = games[0];
        assert(replay(games[0].0, games[0].1.drop_last()) is Some);
        lemma_sf_hash_at(s, u, 0);
        assert(sf_game_entries(s, u).subrange(0, u.len() as int) =~= sf_game_entries(s, u));
        assert(hash_seq(s, u, u.len()).subrange(0, u.len() as int) =~= hash_seq(s, u, u.len()));
        lemma_sf_stream_seen(games, 0, limit, None, 0, Set::empty());
        assert(Set::<u64>::empty().union(t) =~= t);
    }
    if limit == Some(0usize) {
        assert(all.take(0) =~= Seq::<u64>::empty());
        assert(Seq::<u64>::empty().to_set() =~= Set::<u64>::empty());
    }
}

} // verus!
