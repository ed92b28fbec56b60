use vstd::prelude::*;

verus! {

/// Starting state of the 64-bit FNV-1a hash.
pub const FNV_OFFSET: u64 = 14695981039346656037;

/// Multiplier of the 64-bit FNV-1a hash.
pub const FNV_PRIME: u64 = 1099511628211;

/// Odd constant that spreads the index of a hash function over the starting state.
pub const SEED_SPREAD: u64 = 11400714819323198485;

/// The starting state of hash function number `seed`.
pub open spec fn hash_start(seed: u64) -> u64 {
    FNV_OFFSET ^ seed.wrapping_mul(SEED_SPREAD)
}

/// One FNV-1a round over the character `c`.
pub open spec fn hash_round(h: u64, c: char) -> u64 {
    (h ^ ((c as u32) as u64)).wrapping_mul(FNV_PRIME)
}

/// Hash function number `seed` of the key `s`: FNV-1a over its characters.
pub open spec fn key_hash(s: Seq<char>, seed: u64) -> u64
    decreases s.len(),
{
    if s.len() == 0 {
        hash_start(seed)
    } else {
        hash_round(key_hash(s.drop_last(), seed), s.last())
    }
}

/// The bit that hash function number `seed` selects for `s` in an array of `n` bits.
pub open spec fn bit_position(s: Seq<char>, seed: u64, n: nat) -> int
    recommends
        n > 0,
{
    (key_hash(s, seed) as nat % n) as int
}

/// Computes hash function number `seed` of `key`.
pub fn hash_key(key: &str, seed: u64) -> (r: u64)
    ensures
        r == key_hash(key@, seed),
{
    let n = key.unicode_len();
    let mut h: u64 = FNV_OFFSET ^ seed.wrapping_mul(SEED_SPREAD);
    let mut i: usize = 0;
    while i < n
        invariant
            n == key@.len(),
            i <= n,
            h == key_hash(key@.subrange(0, i as int), seed),
        decreases n - i,
    {
        let c = key.get_char(i);
        proof {
            let pre = key@.subrange(0, i as int + 1);
            assert(pre.drop_last() =~= key@.subrange(0, i as int));
            assert(pre.last() == c);
        }
        h = (h ^ (c as u32 as u64)).wrapping_mul(FNV_PRIME);
        i = i + 1;
    }
    assert(key@.subrange(0, n as int) =~= key@);
    h
}

/// A probabilistic set of string keys: a fixed array of bits and a fixed
/// number of hash functions. Keys can be added and tested, never removed; a
/// key that was added always tests positive, and a key that was not may too.
pub struct MembershipFilter {
    bits: Vec<bool>,
    num_hashes: u64,
    added: Ghost<Set<Seq<char>>>,
}

impl MembershipFilter {
    /// The keys added so far.
    pub closed spec fn inserted(&self) -> Set<Seq<char>> {
        self.added@
    }

    /// The bit array.
    pub closed spec fn bit_view(&self) -> Seq<bool> {
        self.bits@
    }

    /// The number of hash functions.
    pub closed spec fn hash_count(&self) -> u64 {
        self.num_hashes
    }

    /// Every bit that the hash functions select for `k` is set.
    pub open spec fn all_bits_set(&self, k: Seq<char>) -> bool {
        forall|i: u64|
            i < self.hash_count() ==> #[trigger] self.bit_view()[bit_position(k, i, self.bit_view().len())]
    }

    /// The filter's invariant: a non-empty bit array in which every added key
    /// finds all of its bits set.
    pub open spec fn wf(&self) -> bool {
        &&& self.bit_view().len() > 0
        &&& forall|k: Seq<char>| #[trigger] self.inserted().contains(k) ==> self.all_bits_set(k)
    }

    /// An empty filter of `num_bits` bits and `num_hashes` hash functions.
    pub fn new(num_bits: usize, num_hashes: u64) -> (r: Self)
        requires
            num_bits > 0,
        ensures
            r.wf(),
            r.inserted() == Set::<Seq<char>>::empty(),
            r.bit_view().len() == num_bits,
            r.hash_count() == num_hashes,
            forall|j: int| 0 <= j < num_bits ==> !r.bit_view()[j],
    {
        let mut bits: Vec<bool> = Vec::new();
        let mut i: usize = 0;
        while i < num_bits
            invariant
                i <= num_bits,
                bits@.len() == i,
                forall|j: int| 0 <= j < i ==> !bits@[j],
            decreases num_bits - i,
        {
            bits.push(false);
            i = i + 1;
        }
        MembershipFilter { bits, num_hashes, added: Ghost(Set::empty()) }
    }

    /// Adds `key`: sets every bit its hash functions select.
    pub fn insert(&mut self, key: &str)
        requires
            old(self).wf(),
        ensures
            final(self).wf(),
            final(self).inserted() == old(self).inserted().insert(key@),
            final(self).hash_count() == old(self).hash_count(),
            final(self).bit_view().len() == old(self).bit_view().len(),
            forall|j: int|
                0 <= j < old(self).bit_view().len() && old(self).bit_view()[j] ==> final(self).bit_view()[j],
            final(self).all_bits_set(key@),
    {
        let n = self.bits.len();
        let ghost b0 = self.bits@;
        let mut i: u64 = 0;
        while i < self.num_hashes
            invariant
                n == self.bits@.len(),
                n == b0.len(),
                n > 0,
                i <= self.num_hashes,
                self.num_hashes == old(self).num_hashes,
                self.added == old(self).added,
                forall|j: int| 0 <= j < n && b0[j] ==> self.bits@[j],
                forall|s: u64| s < i ==> #[trigger] self.bits@[bit_position(key@, s, n as nat)],
            decreases self.num_hashes - i,
        {
            let h = hash_key(key, i);
            let p: usize = (h % (n as u64)) as usize;
            assert(p == bit_position(key@, i, n as nat));
            self.bits.set(p, true);
            i = i + 1;
        }
        proof {
            self.added@ = self.added@.insert(key@);
            assert forall|k: Seq<char>| #[trigger] self.inserted().contains(k) implies self.all_bits_set(k) by {
                if k != key@ {
                    assert(old(self).inserted().contains(k));
                    assert(old(self).all_bits_set(k));
                    assert forall|s: u64| s < self.hash_count() implies #[trigger] self.bit_view()[bit_position(k, s, self.bit_view().len())] by {
                        assert(b0[bit_position(k, s, n as nat)]);
                    }
                }
            }
        }
    }

    /// Tests `key`: true when every bit its hash functions select is set, so
    /// always true for a key that was added.
    pub fn check(&self, key: &str) -> (r: bool)
        requires
            self.wf(),
        ensures
            r == self.all_bits_set(key@),
            self.inserted().contains(key@) ==> r,
    {
        let n = self.bits.len();
        let mut i: u64 = 0;
        while i < self.num_hashes
            invariant
                self.wf(),
                n == self.bits@.len(),
                n > 0,
                i <= self.num_hashes,
                forall|s: u64| s < i ==> #[trigger] self.bits@[bit_position(key@, s, n as nat)],
            decreases self.num_hashes - i,
        {
            let h = hash_key(key, i);
            let p: usize = (h % (n as u64)) as usize;
            assert(p == bit_position(key@, i, n as nat));
            if !self.bits[p] {
                assert(!self.bit_view()[bit_position(key@, i, self.bit_view().len())]);
                assert(!self.all_bits_set(key@));
                return false;
            }
            i = i + 1;
        }
        true
    }

    /// The number of bits.
    pub fn num_bits(&self) -> (r: usize)
        ensures
            r == self.bit_view().len(),
    {
        self.bits.len()
    }

    /// The number of hash functions.
    pub fn num_hashes(&self) -> (r: u64)
        ensures
            r == self.hash_count(),
    {
        self.num_hashes
    }
}

/// A key added to a filter tests positive after any later sequence of
/// additions.
pub proof fn lemma_no_false_negatives(f: MembershipFilter, k: Seq<char>)
    requires
        f.wf(),
        f.inserted().contains(k),
    ensures
        f.all_bits_set(k),
{
}

} // verus!
