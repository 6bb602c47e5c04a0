//! Pseudorandom upload payload, cut into chunks of at most one MiB; the last
//! chunk ends with the sentinel byte.

use crate::protocol::SENTINEL;
use rand::distributions::Alphanumeric;
use rand::{Rng, SeedableRng};
use rand_xoshiro::Xoroshiro128PlusPlus;
use vstd::prelude::*;

verus! {

/// Largest chunk that the generator hands out, in bytes (one MiB).
pub const CHUNK_CAPACITY: usize = 1048576;

/// How many chunks may wait between the generator and the writer.
pub const QUEUE_DEPTH: usize = 16;

#[verifier::external_type_specification]
#[verifier::external_body]
pub struct ExXoroshiro128PlusPlus(Xoroshiro128PlusPlus);

/// An ASCII digit or letter.
pub open spec fn is_alphanumeric(b: u8) -> bool {
    (48 <= b <= 57) || (65 <= b <= 90) || (97 <= b <= 122)
}

/// Size of the next chunk when `left` payload bytes remain.
pub open spec fn chunk_len(left: nat) -> nat {
    if left < CHUNK_CAPACITY { left } else { CHUNK_CAPACITY as nat }
}

/// The chunk sizes, in order, of a payload of `total` bytes.
pub open spec fn chunk_sizes(total: nat) -> Seq<nat>
    decreases total,
{
    if total == 0 {
        Seq::empty()
    } else {
        seq![chunk_len(total)] + chunk_sizes((total - chunk_len(total)) as nat)
    }
}

/// Sum of a sequence of sizes.
pub open spec fn total_of(s: Seq<nat>) -> nat
    decreases s.len(),
{
    if s.len() == 0 { 0 } else { s[0] + total_of(s.subrange(1, s.len() as int)) }
}

/// The chunk ends with the sentinel byte.
pub open spec fn carries_sentinel(c: Seq<u8>) -> bool {
    c.len() > 0 && c.last() == SENTINEL
}

/// Every chunk of a payload of `total` bytes is non-empty and at most one MiB,
/// every chunk but the last is exactly one MiB, and the sizes add up to `total`.
pub proof fn lemma_chunk_sizes(total: nat)
    ensures
        total_of(chunk_sizes(total)) == total,
        forall|i: int| 0 <= i < chunk_sizes(total).len()
            ==> 0 < #[trigger] chunk_sizes(total)[i] <= CHUNK_CAPACITY,
        forall|i: int| 0 <= i < chunk_sizes(total).len() - 1
            ==> #[trigger] chunk_sizes(total)[i] == CHUNK_CAPACITY,
    decreases total,
{
    if total > 0 {
        let head = chunk_len(total);
        let rest = (total - head) as nat;
        lemma_chunk_sizes(rest);
        let s = chunk_sizes(total);
        assert(s.subrange(1, s.len() as int) =~= chunk_sizes(rest));
        assert forall|i: int| 0 <= i < s.len() - 1 implies #[trigger] s[i] == CHUNK_CAPACITY by {
            if i == 0 {
                if total < CHUNK_CAPACITY {
                    assert(rest == 0);
                    assert(chunk_sizes(rest).len() == 0);
                }
            } else {
                assert(s[i] == chunk_sizes(rest)[i - 1]);
            }
        }
        assert forall|i: int| 0 <= i < s.len() implies 0 < #[trigger] s[i] <= CHUNK_CAPACITY by {
            if i > 0 {
                assert(s[i] == chunk_sizes(rest)[i - 1]);
            }
        }
    }
}

/// Relies on rand_core's `SeedableRng::seed_from_u64`, as Xoroshiro128PlusPlus
/// takes it: a generator whose state comes from the seed.
#[verifier::external_body]
fn seeded_source(seed: u64) -> (r: Xoroshiro128PlusPlus) {
    Xoroshiro128PlusPlus::seed_from_u64(seed)
}

/// Relies on rand's `Rng::sample_iter` with the `Alphanumeric` distribution, which
/// draws each byte from `A-Z`, `a-z` and `0-9`; `take(n)` keeps `n` of them.
#[verifier::external_body]
fn alphanumeric_bytes(source: &mut Xoroshiro128PlusPlus, n: usize) -> (r: Vec<u8>)
    ensures
        r@.len() == n,
        forall|i: int| 0 <= i < n ==> is_alphanumeric(#[trigger] r@[i]),
{
    source.sample_iter(Alphanumeric).take(n).collect()
}

/// Produces the payload of one upload, chunk by chunk, from its own seeded source.
pub struct PayloadGenerator {
    remaining: usize,
    source: Xoroshiro128PlusPlus,
}

impl PayloadGenerator {
    /// Payload bytes not yet handed out.
    pub closed spec fn left(&self) -> nat {
        self.remaining as nat
    }

    /// A generator for a payload of `payload_len` bytes, the sentinel included.
    pub fn new(payload_len: usize, seed: u64) -> (g: PayloadGenerator)
        ensures
            g.left() == payload_len,
    {
        PayloadGenerator { remaining: payload_len, source: seeded_source(seed) }
    }

    /// Payload bytes not yet handed out.
    pub fn remaining(&self) -> (r: usize)
        ensures
            r == self.left(),
    {
        self.remaining
    }

    /// The next chunk, or `None` once the whole payload has been handed out.
    /// A chunk holds `min(1 MiB, remaining)` bytes; all but its last byte are
    /// alphanumeric, and its last byte is the sentinel exactly when it is the
    /// final chunk.
    pub fn next_chunk(&mut self) -> (r: Option<Vec<u8>>)
        ensures
            old(self).left() == 0 ==> r is None && final(self).left() == 0,
            old(self).left() > 0 ==> r is Some,
            r matches Some(c) ==> {
                &&& c@.len() == chunk_len(old(self).left())
                &&& 0 < c@.len() <= CHUNK_CAPACITY
                &&& final(self).left() == old(self).left() - c@.len()
                &&& (carries_sentinel(c@) <==> final(self).left() == 0)
                &&& forall|i: int| 0 <= i < c@.len() - 1 ==> is_alphanumeric(#[trigger] c@[i])
            },
    {
        if self.remaining == 0 {
            return None;
        }
        let len: usize = if self.remaining < CHUNK_CAPACITY { self.remaining } else { CHUNK_CAPACITY };
        let last: bool = len == self.remaining;
        let mut chunk: Vec<u8>;
        if last {
            chunk = alphanumeric_bytes(&mut self.source, len - 1);
            chunk.push(SENTINEL);
        } else {
            chunk = alphanumeric_bytes(&mut self.source, len);
            assert(is_alphanumeric(chunk@[len - 1]));
        }
        self.remaining = self.remaining - len;
        Some(chunk)
    }
}

} // verus!
