//! The decisions of shuffling a file by chunks (binpack) or games
//! (viriformat) into one or more output files.
use vstd::prelude::*;
use vstd::string::*;

use crate::error::Error;
use crate::paths::{
    path_debug, path_debug_spec, path_extension, path_extension_spec, path_file_stem, path_file_stem_spec,
    path_join, path_join_spec, path_parent, path_parent_spec,
};
use crate::text::{concat, decimal_digits, push_char, push_decimal_u64};

verus! {

broadcast use vstd::string::group_string_axioms;

/// The file name of output `index` of a split: `stem_index.ext`, or
/// `stem_index` when the base path has no extension.
pub open spec fn split_file_name(stem: Seq<char>, index: nat, ext: Option<Seq<char>>) -> Seq<char> {
    let named = stem + seq!['_'] + decimal_digits(index);
    match ext {
        Some(e) => named + seq!['.'] + e,
        None => named,
    }
}

/// The output paths of a shuffle into `split` files: the base path itself
/// for one file, otherwise numbered files beside it; `None` when `split`
/// is 0 or the base path has no file name.
pub open spec fn output_paths_spec(base: Seq<char>, split: nat) -> Option<Seq<Seq<char>>> {
    if split == 0 {
        None
    } else if split == 1 {
        Some(seq![base])
    } else {
        match path_file_stem_spec(base) {
            None => None,
            Some(stem) => Some(
                Seq::new(
                    split,
                    |i: int|
                        path_join_spec(
                            path_parent_spec(base),
                            split_file_name(stem, i as nat, path_extension_spec(base)),
                        ),
                ),
            ),
        }
    }
}

/// The paths of the output files of a shuffle into `split` files.
pub fn output_paths(base: &str, split: usize) -> (r: Result<Vec<String>, Error>)
    ensures
        match output_paths_spec(base@, split as nat) {
            Some(paths) => r matches Ok(v) && v@.map_values(|p: String| p@) == paths,
            None => if split == 0 {
                r matches Err(Error::InvalidSplitCount(n)) && n == 0
            } else {
                r matches Err(Error::InvalidFormat(m)) && m@ == "could not infer output basename from path: "@
                    + path_debug_spec(base@)
            },
        },
{
    if split == 0 {
        return Err(Error::InvalidSplitCount(split));
    }
    if split == 1 {
        let mut v: Vec<String> = Vec::new();
        v.push(String::from_str(base));
        assert(v@.map_values(|p: String| p@) =~= seq![base@]);
        return Ok(v);
    }
    let parent = path_parent(base);
    let stem = match path_file_stem(base) {
        Some(stem) => stem,
        None => {
            proof {
                reveal_strlit("could not infer output basename from path: ");
            }
            let shown = path_debug(base);
            return Err(
                Error::InvalidFormat(concat("could not infer output basename from path: ", shown.as_str())),
            );
        },
    };
    let extension = path_extension(base);
    let ghost ext_spec = path_extension_spec(base@);
    let ghost expected = output_paths_spec(base@, split as nat).unwrap();
    let mut paths: Vec<String> = Vec::new();
    let mut index: usize = 0;
    while index < split
        invariant
            index <= split,
            split > 1,
            expected == output_paths_spec(base@, split as nat).unwrap(),
            expected.len() == split,
            path_file_stem_spec(base@) == Some(stem@),
            parent@ == path_parent_spec(base@),
            ext_spec == path_extension_spec(base@),
            match extension {
                Some(e) => ext_spec == Some(e@),
                None => ext_spec is None,
            },
            paths@.map_values(|p: String| p@) == expected.take(index as int),
        decreases split - index,
    {
        let mut name = String::from_str(stem.as_str());
        push_char(&mut name, '_');
        push_decimal_u64(&mut name, index as u64);
        match &extension {
            Some(e) => {
                push_char(&mut name, '.');
                name.append(e.as_str());
            },
            None => {},
        }
        assert(name@ =~= split_file_name(stem@, index as nat, ext_spec));
        let path = path_join(parent.as_str(), name.as_str());
        assert(expected[index as int] == path_join_spec(
            path_parent_spec(base@),
            split_file_name(stem@, index as nat, ext_spec),
        ));
        let ghost before = paths@;
        paths.push(path);
        assert(paths@ == before.push(path));
        assert(paths@.map_values(|p: String| p@) =~= before.map_values(|p: String| p@).push(path@));
        assert(expected.take(index as int + 1) =~= expected.take(index as int).push(expected[index as int]));
        index += 1;
    }
    assert(expected.take(split as int) =~= expected);
    Ok(paths)
}

/// The four bytes that begin every binpack chunk: `BINP`.
pub open spec fn is_sfbinpack_magic(h: Seq<u8>) -> bool {
    h[0] == 66 && h[1] == 73 && h[2] == 78 && h[3] == 80
}

/// The payload size of a binpack chunk: the little-endian `u32` in bytes 4..8
/// of its header.
pub open spec fn chunk_payload_size(h: Seq<u8>) -> nat {
    (h[4] + 256 * h[5] + 65536 * h[6] + 16777216 * h[7]) as nat
}

/// The chunks of a binpack file found so far: each chunk's byte offset and
/// size (header included), in file order.
pub struct SfChunkIndex {
    pub offset: u64,
    pub chunks: Vec<(u64, u64)>,
}

impl SfChunkIndex {
    pub fn new() -> (s: SfChunkIndex)
        ensures
            s.offset == 0,
            s.chunks@ == Seq::<(u64, u64)>::empty(),
    {
        SfChunkIndex { offset: 0, chunks: Vec::new() }
    }

    /// Records the chunk whose 8-byte header was just read, and returns the
    /// size of its payload, which the reader skips; fails on a header that
    /// does not begin with the binpack magic.
    pub fn on_header(&mut self, header: &[u8]) -> (r: Result<u64, Error>)
        requires
            header@.len() == 8,
            old(self).offset + chunk_payload_size(header@) + 8 <= u64::MAX,
        ensures
            is_sfbinpack_magic(header@) ==> {
                &&& r == Ok::<u64, Error>(chunk_payload_size(header@) as u64)
                &&& final(self).chunks@ == old(self).chunks@.push(
                    (old(self).offset, (chunk_payload_size(header@) + 8) as u64),
                )
                &&& final(self).offset == old(self).offset + chunk_payload_size(header@) + 8
            },
            !is_sfbinpack_magic(header@) ==> {
                &&& r matches Err(Error::InvalidGameData(m)) && m@
                    == "invalid sfbinpack chunk magic at byte offset "@ + decimal_digits(old(self).offset as nat)
                &&& final(self).chunks@ == old(self).chunks@
                &&& final(self).offset == old(self).offset
            },
    {
        if !(header[0] == 66 && header[1] == 73 && header[2] == 78 && header[3] == 80) {
            let mut m = String::from_str("invalid sfbinpack chunk magic at byte offset ");
            proof {
                reveal_strlit("invalid sfbinpack chunk magic at byte offset ");
            }
            push_decimal_u64(&mut m, self.offset);
            return Err(Error::InvalidGameData(m));
        }
        let payload: u64 = header[4] as u64 + 256 * header[5] as u64 + 65536 * header[6] as u64 + 16777216
            * header[7] as u64;
        let size = payload + 8;
        self.chunks.push((self.offset, size));
        self.offset = self.offset + size;
        Ok(payload)
    }
}

/// Output files take the copied items in turn: the state is the output
/// that takes the next one.
pub struct RoundRobin {
    pub next: usize,
    pub outputs: usize,
}

impl RoundRobin {
    pub fn new(outputs: usize) -> (r: RoundRobin)
        requires
            outputs > 0,
        ensures
            r.next == 0,
            r.outputs == outputs,
    {
        RoundRobin { next: 0, outputs }
    }

    /// The output that takes the next item; the turn passes to the next one.
    pub fn take_turn(&mut self) -> (k: usize)
        requires
            old(self).outputs > 0,
            old(self).next < old(self).outputs,
        ensures
            k == old(self).next,
            final(self).outputs == old(self).outputs,
            final(self).next == (old(self).next + 1) % (old(self).outputs as int),
    {
        let k = self.next;
        self.next = (self.next + 1) % self.outputs;
        k
    }
}

/// The output that takes item `i`: the state of `RoundRobin` after `i` turns.
pub open spec fn turns(outputs: int, i: nat) -> int
    decreases i,
{
    if i == 0 {
        0
    } else {
        (turns(outputs, (i - 1) as nat) + 1) % outputs
    }
}

/// Items go to the outputs in turn: item `i` goes to output `i % outputs`.
pub proof fn law_round_robin(outputs: int, i: nat)
    requires
        outputs > 0,
    ensures
        turns(outputs, i) == (i as int) % outputs,
    decreases i,
{
    if i > 0 {
        law_round_robin(outputs, (i - 1) as nat);
        vstd::arithmetic::div_mod::lemma_add_mod_noop(i - 1, 1, outputs);
        let prev = turns(outputs, (i - 1) as nat);
        assert(prev == (i - 1) % outputs);
        assert(turns(outputs, i) == (prev + 1) % outputs);
        if outputs > 1 {
            vstd::arithmetic::div_mod::lemma_small_mod(1, outputs as nat);
            assert(1int % outputs == 1);
            assert(((i - 1) % outputs + 1int % outputs) % outputs == (i - 1 + 1) % outputs);
        } else {
            assert(turns(outputs, i) == 0 && (i as int) % outputs == 0) by (nonlinear_arith)
                requires
                    outputs == 1,
                    turns(outputs, i) == (turns(outputs, (i - 1) as nat) + 1) % outputs,
            ;
        }
    } else {
        vstd::arithmetic::div_mod::lemma_small_mod(0, outputs as nat);
    }
}

/// The thread-local random generator.
#[verifier::external_type_specification]
#[verifier::external_body]
pub struct ExThreadRng(rand::rngs::ThreadRng);

/// Calls `rand::thread_rng`. Nothing is stated of the generator.
#[verifier::external_body]
fn thread_rng() -> rand::rngs::ThreadRng {
    rand::thread_rng()
}

/// The order in which `SliceRandom::shuffle` leaves the items when it is
/// driven by `StdRng::seed_from_u64(seed)`. In the rand version this crate
/// builds with, the generator and the index sampling are deterministic, so
/// the order depends on the seed and the items alone; rand documents
/// `StdRng` as not reproducible across its own versions or configurations.
pub uninterp spec fn seeded_shuffle(seed: u64, items: Seq<(u64, u64)>) -> Seq<(u64, u64)>;

/// Seeds a `StdRng` with `StdRng::seed_from_u64` and calls
/// `SliceRandom::shuffle` with it: its source swaps elements in place
/// (Fisher-Yates), so the result holds the same elements, in the order
/// named by `seeded_shuffle`.
#[verifier::external_body]
fn shuffle_seeded(items: &mut Vec<(u64, u64)>, seed: u64)
    ensures
        final(items)@ == seeded_shuffle(seed, old(items)@),
        final(items)@.to_multiset() == old(items)@.to_multiset(),
{
    let mut rng = <rand::rngs::StdRng as rand::SeedableRng>::seed_from_u64(seed);
    rand::seq::SliceRandom::shuffle(items.as_mut_slice(), &mut rng)
}

/// Calls `SliceRandom::shuffle` with the thread-local generator: the
/// result holds the same elements, in an order left unsaid.
#[verifier::external_body]
fn shuffle_thread(items: &mut Vec<(u64, u64)>, rng: &mut rand::rngs::ThreadRng)
    ensures
        final(items)@.to_multiset() == old(items)@.to_multiset(),
{
    rand::seq::SliceRandom::shuffle(items.as_mut_slice(), rng)
}

/// Puts the chunks or games of an index in random order: from a generator
/// seeded with `seed` when one is given, else from the thread's generator.
/// Every item stays, each as many times as before; with a seed, the order
/// is the one that seed gives (see `seeded_shuffle`).
pub fn shuffle_index(index: &mut Vec<(u64, u64)>, seed: Option<u64>)
    ensures
        seed matches Some(s) ==> final(index)@ == seeded_shuffle(s, old(index)@),
        final(index)@.to_multiset() == old(index)@.to_multiset(),
        final(index)@.len() == old(index)@.len(),
{
    match seed {
        Some(seed) => {
            shuffle_seeded(index, seed);
        },
        None => {
            let mut rng = thread_rng();
            shuffle_thread(index, &mut rng);
        },
    }
    proof {
        vstd::seq_lib::to_multiset_len(old(index)@);
        vstd::seq_lib::to_multiset_len(final(index)@);
    }
}

/// The payload size of a chunk header is the number whose base-256 digits,
/// least significant first, are bytes 4 to 7 of the header: each of the four
/// bytes is read back from the size, and the size is below 2^32.
pub proof fn law_chunk_payload_bytes(h: Seq<u8>)
    requires
        h.len() == 8,
    ensures
        chunk_payload_size(h) < 0x1_0000_0000,
        chunk_payload_size(h) % 256 == h[4],
        (chunk_payload_size(h) / 256) % 256 == h[5],
        (chunk_payload_size(h) / 65536) % 256 == h[6],
        chunk_payload_size(h) / 16777216 == h[7],
{
    let (b4, b5, b6, b7) = (h[4] as int, h[5] as int, h[6] as int, h[7] as int);
    let p = chunk_payload_size(h) as int;
    assert(p == b4 + 256 * b5 + 65536 * b6 + 16777216 * b7);
    assert(0 <= b4 < 256 && 0 <= b5 < 256 && 0 <= b6 < 256 && 0 <= b7 < 256);
    assert(p < 0x1_0000_0000 && p % 256 == b4 && (p / 256) % 256 == b5 && (p / 65536) % 256 == b6 && p
        / 16777216 == b7) by (nonlinear_arith)
        requires
            p == b4 + 256 * b5 + 65536 * b6 + 16777216 * b7,
            0 <= b4 < 256,
            0 <= b5 < 256,
            0 <= b6 < 256,
            0 <= b7 < 256,
    ;
}

} // verus!
