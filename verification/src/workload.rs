//! The workload generator.
//!
//! Produces the randomized key/value corpora, the fresh
//! query/mutation pairs, and the synthetic ORAM block contents that
//! the benchmark scenarios feed to the oblivious-structure factory
//! and to the boundary calls.  Key and value types are fixed-width
//! integers; randomness comes from the process-wide generator behind
//! a trusted specification, so every contract here holds for every
//! outcome of the draw.

use vstd::prelude::*;
use vstd::arithmetic::div_mod::lemma_fundamental_div_mod_converse;
use crate::status::BenchError;

verus! {

/// Relies on rand::random: draws one value from the thread-local
/// generator.  Nothing can be promised of the value drawn.  The call
/// aborts only if the platform randomness source fails at generator
/// initialization or reseed — an environment failure independent of
/// any input, like allocation failure.
pub assume_specification<T>[ rand::random::<T> ]() -> (r: T)
    where
        rand::distributions::Standard: rand::distributions::Distribution<T>,
;

/// An ordered sequence of (key, value) pairs, duplicates allowed: a
/// key may map to many values, modeling a one-to-many index.  The
/// `keys` sequence lists each distinct generation draw once;
/// `pairs[i]` carries the key drawn for group `i / vals_per_key`.
pub struct Corpus {
    pub keys: Vec<u64>,
    pub vals_per_key: usize,
    pub pairs: Vec<(u64, u64)>,
}

impl Corpus {
    /// Shape every generated corpus has: `keys` holds one entry per
    /// key group, each group spans `vals_per_key` consecutive pairs,
    /// and a pair's key is its group's key.
    pub open spec fn wf(&self) -> bool {
        &&& self.vals_per_key > 0
        &&& self.pairs@.len() == self.keys@.len() * self.vals_per_key
        &&& forall|i: int|
            0 <= i < self.pairs@.len() ==> (#[trigger] self.pairs@[i]).0 == self.keys@[
                i / (self.vals_per_key as int)
            ]
    }

    /// True of `k` exactly when some corpus pair carries it.
    pub open spec fn has_key(&self, k: u64) -> bool {
        exists|i: int| 0 <= i < self.pairs@.len() && (#[trigger] self.pairs@[i]).0 == k
    }
}

/// Generate `n` independent (key, value) pairs, each component a
/// fresh random draw.  Used both for flat corpora and for the fresh
/// mutation pairs that insert scenarios feed across the boundary;
/// the pairs share no generation source with any corpus.
pub fn generate_pairs(n: usize) -> (r: Vec<(u64, u64)>)
    ensures
        r@.len() == n,
{
    let mut pairs: Vec<(u64, u64)> = Vec::new();
    let mut i: usize = 0;
    while i < n
        invariant
            i <= n,
            pairs@.len() == i,
        decreases n - i,
    {
        let key: u64 = rand::random::<u64>();
        let value: u64 = rand::random::<u64>();
        pairs.push((key, value));
        i = i + 1;
    }
    pairs
}

/// Every pair index of a corpus of `n` full groups of `f` pairs
/// falls in a group below `n`.
proof fn lemma_group_index_bound(i: int, f: int, n: int)
    requires
        f > 0,
        0 <= i < n * f,
    ensures
        0 <= i / f < n,
{
    assert(0 <= i / f < n) by (nonlinear_arith)
        requires
            f > 0,
            0 <= i < n * f,
    ;
}

/// Generate a corpus of `n_keys` random keys with `vals_per_key`
/// random values each: exactly `n_keys * vals_per_key` pairs, grouped
/// by key in generation order.
pub fn generate_corpus(n_keys: usize, vals_per_key: usize) -> (r: Corpus)
    requires
        vals_per_key > 0,
        n_keys * vals_per_key <= usize::MAX,
    ensures
        r.wf(),
        r.keys@.len() == n_keys,
        r.vals_per_key == vals_per_key,
        r.pairs@.len() == n_keys * vals_per_key,
{
    let mut keys: Vec<u64> = Vec::new();
    let mut pairs: Vec<(u64, u64)> = Vec::new();
    let mut k: usize = 0;
    while k < n_keys
        invariant
            k <= n_keys,
            vals_per_key > 0,
            n_keys * vals_per_key <= usize::MAX,
            keys@.len() == k,
            pairs@.len() == k * vals_per_key,
            forall|i: int|
                0 <= i < pairs@.len() ==> (#[trigger] pairs@[i]).0 == keys@[
                    i / (vals_per_key as int)
                ],
        decreases n_keys - k,
    {
        proof {
            assert((k + 1) * vals_per_key <= n_keys * vals_per_key) by (nonlinear_arith)
                requires
                    k < n_keys,
                    vals_per_key > 0,
            ;
            assert((k + 1) * vals_per_key == k * vals_per_key + vals_per_key) by (nonlinear_arith);
        }
        let key: u64 = rand::random::<u64>();
        keys.push(key);
        proof {
            assert forall|i: int|
                0 <= i < pairs@.len() implies (#[trigger] pairs@[i]).0 == keys@[
                i / (vals_per_key as int)
            ] by {
                lemma_group_index_bound(i, vals_per_key as int, k as int);
            };
        }
        let mut j: usize = 0;
        while j < vals_per_key
            invariant
                j <= vals_per_key,
                k < n_keys,
                k * vals_per_key + vals_per_key <= n_keys * vals_per_key <= usize::MAX,
                keys@.len() == k + 1,
                keys@[k as int] == key,
                pairs@.len() == k * vals_per_key + j,
                forall|i: int|
                    0 <= i < pairs@.len() ==> (#[trigger] pairs@[i]).0 == keys@[
                        i / (vals_per_key as int)
                    ],
            decreases vals_per_key - j,
        {
            let value: u64 = rand::random::<u64>();
            proof {
                lemma_fundamental_div_mod_converse(
                    k * vals_per_key + j,
                    vals_per_key as int,
                    k as int,
                    j as int,
                );
            }
            pairs.push((key, value));
            j = j + 1;
        }
        k = k + 1;
    }
    Corpus { keys, vals_per_key, pairs }
}

/// Draw a query key from the corpus's actual key set: the result is
/// always the key of some existing pair, never manufactured
/// out-of-band.  An empty corpus is a configuration error.
pub fn choose_query_key(corpus: &Corpus) -> (r: Result<u64, BenchError>)
    requires
        corpus.wf(),
    ensures
        r is Ok <==> corpus.pairs@.len() > 0,
        r matches Ok(k) ==> corpus.has_key(k),
        r is Err ==> r == Err::<u64, BenchError>(BenchError::Configuration),
{
    if corpus.keys.len() == 0 {
        proof {
            assert(corpus.keys@.len() * corpus.vals_per_key == 0) by (nonlinear_arith)
                requires
                    corpus.keys@.len() == 0,
            ;
        }
        return Err(BenchError::Configuration);
    }
    if corpus.pairs.len() == 0 {
        return Err(BenchError::Configuration);
    }
    let draw: u64 = rand::random::<u64>();
    let idx: usize = (draw % (corpus.keys.len() as u64)) as usize;
    let key: u64 = corpus.keys[idx];
    proof {
        let g = idx as int;
        let first = g * (corpus.vals_per_key as int);
        assert(0 <= first && first < corpus.pairs@.len() && first / (corpus.vals_per_key as int)
            == g) by (nonlinear_arith)
            requires
                0 <= g < corpus.keys@.len(),
                corpus.vals_per_key > 0,
                corpus.pairs@.len() == corpus.keys@.len() * corpus.vals_per_key,
                first == g * (corpus.vals_per_key as int),
        ;
        assert(corpus.pairs@[first].0 == key);
    }
    Ok(key)
}

/// Generate `count` random logical block keys for an ORAM of
/// `n_items` blocks: every key is in range.
pub fn generate_oram_requests(n_items: u64, count: usize) -> (r: Vec<u64>)
    requires
        n_items > 0,
    ensures
        r@.len() == count,
        forall|i: int| 0 <= i < r@.len() ==> #[trigger] r@[i] < n_items,
{
    let mut keys: Vec<u64> = Vec::new();
    let mut i: usize = 0;
    while i < count
        invariant
            i <= count,
            n_items > 0,
            keys@.len() == i,
            forall|j: int| 0 <= j < keys@.len() ==> #[trigger] keys@[j] < n_items,
        decreases count - i,
    {
        let draw: u64 = rand::random::<u64>();
        keys.push(draw % n_items);
        i = i + 1;
    }
    keys
}

/// `n` copies of one byte: the synthetic content of one block.
fn repeat_byte(b: u8, n: usize) -> (r: Vec<u8>)
    ensures
        r@ == Seq::new(n as nat, |j: int| b),
{
    let mut out: Vec<u8> = Vec::new();
    let mut i: usize = 0;
    while i < n
        invariant
            i <= n,
            out@.len() == i,
            forall|j: int| 0 <= j < i ==> out@[j] == b,
        decreases n - i,
    {
        out.push(b);
        i = i + 1;
    }
    proof {
        assert(out@ =~= Seq::new(n as nat, |j: int| b));
    }
    out
}

/// The synthetic byte that fills block `i`'s content.
pub open spec fn spec_synthetic_byte(i: u64) -> u8 {
    (i % 128) as u8
}

/// Build the initial ORAM data map handed to the structure factory:
/// one entry per logical block, keyed consecutively from zero, each
/// block's content the variant's encoding width worth of a synthetic
/// byte derived from its key.
pub fn setup_oram(num_items: u64, encoding_width: usize) -> (r: Vec<(u64, Vec<u8>)>)
    requires
        num_items <= usize::MAX,
    ensures
        r@.len() == num_items,
        forall|i: int|
            0 <= i < r@.len() ==> (#[trigger] r@[i]).0 == i && r@[i].1@ == Seq::new(
                encoding_width as nat,
                |j: int| spec_synthetic_byte(i as u64),
            ),
{
    let mut map: Vec<(u64, Vec<u8>)> = Vec::new();
    let mut i: u64 = 0;
    while i < num_items
        invariant
            i <= num_items <= usize::MAX,
            map@.len() == i,
            forall|k: int|
                0 <= k < map@.len() ==> (#[trigger] map@[k]).0 == k && map@[k].1@ == Seq::new(
                    encoding_width as nat,
                    |j: int| spec_synthetic_byte(k as u64),
                ),
        decreases num_items - i,
    {
        let content = repeat_byte((i % 128) as u8, encoding_width);
        map.push((i, content));
        i = i + 1;
    }
    map
}

} // verus!
