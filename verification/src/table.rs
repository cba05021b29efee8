//! The permutation table at the heart of the noise field.
//!
//! A `Perlin` value holds 512 integers: a pseudo-randomly shuffled
//! permutation of `0..256`, followed by a verbatim repeat of that
//! permutation. The repeat lets the kernel index `table[i + 1]` and
//! `table[table[i] + j]` without wraparound checks: every intermediate
//! sum stays below 512. The table is immutable after construction.

use vstd::prelude::*;
use rand::seq::SliceRandom;
use rand::SeedableRng;

verus! {

/// A randomness source that cannot yield a full permutation of
/// `0..256` is rejected at construction time.
#[derive(Clone, Copy, Debug, PartialEq, Eq, Structural)]
pub struct ConfigError;

/// The identity arrangement of `0..256`, the sequence handed to the
/// shuffle when a table is built from a seed.
pub open spec fn identity_perm() -> Seq<usize> {
    Seq::new(256, |i: int| i as usize)
}

/// `s` is a permutation of `0..256`: 256 values below 256, no value
/// repeated.
pub open spec fn is_permutation(s: Seq<usize>) -> bool {
    &&& s.len() == 256
    &&& (forall|i: int| 0 <= i < 256 ==> s[i] < 256)
    &&& (forall|i: int, j: int| 0 <= i < j < 256 ==> s[i] != s[j])
}

/// What `rand`'s seeded shuffle makes of a sequence: a fixed
/// rearrangement, determined by the sequence and the seed alone.
pub uninterp spec fn shuffle_of(s: Seq<usize>, seed: Seq<u8>) -> Seq<usize>;

/// The full 512-entry table a given seed produces: the shuffled
/// identity permutation, repeated once.
pub open spec fn table_of(seed: Seq<u8>) -> Seq<usize> {
    shuffle_of(identity_perm(), seed) + shuffle_of(identity_perm(), seed)
}

/// Relies on `rand::seq::SliceRandom::shuffle` driven by
/// `rand::rngs::StdRng::from_seed`: the Fisher-Yates shuffle only swaps
/// elements in place, so the slice keeps exactly the elements it had
/// (as a multiset); and because the generator is built from the fixed
/// 32-byte seed, the rearrangement is a function of the slice's prior
/// contents and the seed alone.
#[verifier::external_body]
fn shuffle_seeded(v: &mut Vec<usize>, seed: &[u8; 32])
    ensures
        final(v)@.to_multiset() == old(v)@.to_multiset(),
        final(v)@ == shuffle_of(old(v)@, seed@),
{
    let mut rng: rand::rngs::StdRng = SeedableRng::from_seed(*seed);
    v.shuffle(&mut rng);
}

/// A noise field's lookup table: a shuffled permutation of `0..256`,
/// duplicated to length 512.
pub struct Perlin {
    permutation: Vec<usize>,
}

impl View for Perlin {
    type V = Seq<usize>;

    closed spec fn view(&self) -> Seq<usize> {
        self.permutation@
    }
}

impl Perlin {
    /// The table's invariant: 512 entries, every entry below 256, the
    /// second half a verbatim repeat of the first, and the first half
    /// free of duplicates (a permutation of `0..256`).
    pub open spec fn wf(self) -> bool {
        &&& self@.len() == 512
        &&& (forall|i: int| 0 <= i < 512 ==> self@[i] < 256)
        &&& (forall|i: int| 0 <= i < 256 ==> #[trigger] self@[i + 256] == self@[i])
        &&& (forall|i: int, j: int| 0 <= i < j < 256 ==> self@[i] != self@[j])
    }

    /// Build a table by shuffling `0..256` with a deterministic
    /// generator: the same seed always yields the same table.
    pub fn new(seed: [u8; 32]) -> (r: Perlin)
        ensures
            r.wf(),
            r@ == table_of(seed@),
    {
        let mut p: Vec<usize> = Vec::new();
        let mut i: usize = 0;
        while i < 256
            invariant
                i <= 256,
                p@.len() == i,
                forall|j: int| 0 <= j < i ==> p@[j] == j,
            decreases 256 - i,
        {
            p.push(i);
            i += 1;
        }
        proof {
            assert(p@ =~= identity_perm());
        }
        shuffle_seeded(&mut p, &seed);
        proof {
            lemma_rearranged_identity_is_permutation(p@);
        }
        let table = duplicate(p);
        Perlin { permutation: table }
    }

    /// Build a table from an explicitly supplied first half, for
    /// callers that inject their own randomness source (or a fixed
    /// fixture). Succeeds exactly when the input is a permutation of
    /// `0..256`; anything else is a configuration error.
    pub fn from_permutation(p: Vec<usize>) -> (r: Result<Perlin, ConfigError>)
        ensures
            r is Ok <==> is_permutation(p@),
            r is Ok ==> (r->Ok_0).wf() && (r->Ok_0)@ == p@ + p@,
    {
        if p.len() != 256 {
            return Err(ConfigError);
        }
        let mut seen: Vec<bool> = Vec::new();
        let mut i: usize = 0;
        while i < 256
            invariant
                i <= 256,
                seen@.len() == i,
                forall|j: int| 0 <= j < i ==> !seen@[j],
            decreases 256 - i,
        {
            seen.push(false);
            i += 1;
        }
        let mut k: usize = 0;
        while k < 256
            invariant
                k <= 256,
                p@.len() == 256,
                seen@.len() == 256,
                forall|j: int| 0 <= j < k ==> p@[j] < 256,
                forall|j1: int, j2: int| 0 <= j1 < j2 < k ==> p@[j1] != p@[j2],
                forall|v: int|
                    0 <= v < 256 ==> (seen@[v] <==> (exists|j: int| 0 <= j < k && p@[j] == v)),
            decreases 256 - k,
        {
            let v = p[k];
            if v >= 256 {
                return Err(ConfigError);
            }
            if seen[v] {
                proof {
                    let j = choose|j: int| 0 <= j < k && p@[j] == v;
                    assert(p@[j] == p@[k as int]);
                }
                return Err(ConfigError);
            }
            seen.set(v, true);
            k += 1;
        }
        let table = duplicate(p);
        Ok(Perlin { permutation: table })
    }

    /// For a fixed seed the field is reproducible: any two tables
    /// built from the same seed are identical, entry for entry, and
    /// with them every corner hash and gradient the kernel derives.
    pub proof fn lemma_table_deterministic(a: Perlin, b: Perlin, seed: Seq<u8>)
        requires
            a@ == table_of(seed),
            b@ == table_of(seed),
        ensures
            a@ == b@,
    {
    }

    /// Read one table entry; the result is always below 256.
    pub fn lookup(&self, i: usize) -> (r: usize)
        requires
            self.wf(),
            i < 512,
        ensures
            r == self@[i as int],
            r < 256,
    {
        self.permutation[i]
    }
}

/// Append a verbatim repeat of a 256-entry first half, producing the
/// 512-entry table.
fn duplicate(p: Vec<usize>) -> (r: Vec<usize>)
    requires
        p@.len() == 256,
    ensures
        r@ == p@ + p@,
{
    let mut table: Vec<usize> = Vec::new();
    let mut i: usize = 0;
    while i < 256
        invariant
            i <= 256,
            p@.len() == 256,
            table@.len() == i,
            forall|j: int| 0 <= j < i ==> table@[j] == p@[j],
        decreases 256 - i,
    {
        let v = p[i];
        table.push(v);
        i += 1;
    }
    let mut k: usize = 0;
    while k < 256
        invariant
            k <= 256,
            p@.len() == 256,
            table@.len() == 256 + k,
            forall|j: int| 0 <= j < 256 ==> table@[j] == p@[j],
            forall|j: int| 0 <= j < k ==> table@[j + 256] == p@[j],
        decreases 256 - k,
    {
        let v = p[k];
        table.push(v);
        k += 1;
    }
    proof {
        assert(table@ =~= p@ + p@);
    }
    table
}

/// A sequence holding exactly the elements of the identity arrangement
/// of `0..256` (as a multiset) is itself a permutation of `0..256`.
proof fn lemma_rearranged_identity_is_permutation(s: Seq<usize>)
    requires
        s.to_multiset() == identity_perm().to_multiset(),
    ensures
        is_permutation(s),
{
    let id = identity_perm();
    s.to_multiset_ensures();
    id.to_multiset_ensures();
    assert(s.len() == 256);
    assert(id.no_duplicates());
    id.lemma_multiset_has_no_duplicates();
    assert forall|i: int| 0 <= i < 256 implies s[i] < 256 by {
        assert(s.contains(s[i]));
        assert(id.to_multiset().count(s[i]) > 0);
        assert(id.contains(s[i]));
        let j = choose|j: int| 0 <= j < id.len() && id[j] == s[i];
        assert(id[j] == j as usize);
    }
    assert forall|x: usize| s.to_multiset().contains(x) implies s.to_multiset().count(x)
        == 1 by {
        assert(id.to_multiset().count(x) > 0);
        assert(id.to_multiset().contains(x));
    }
    s.lemma_multiset_has_no_duplicates_conv();
}

} // verus!
