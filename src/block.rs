//! Blocks and the proof-of-work nonce search.
use vstd::prelude::*;
use crate::hashing::{block_digest, digest};

verus! {

/// Relies on chrono's `Utc::now().timestamp()`: the current time in whole
/// seconds since the Unix epoch. Nothing is promised about its value.
#[verifier::external_body]
fn current_timestamp() -> (r: i64) {
    chrono::Utc::now().timestamp()
}

/// The hash starts with `difficulty` `'0'` characters (a textual prefix test).
pub open spec fn meets_target(hash: Seq<char>, difficulty: nat) -> bool {
    difficulty <= hash.len() && forall|j: int| 0 <= j < difficulty ==> #[trigger] hash[j] == '0'
}

/// Whether `hash` starts with `difficulty` `'0'` characters.
pub fn meets_difficulty(hash: &str, difficulty: usize) -> (r: bool)
    ensures
        r == meets_target(hash@, difficulty as nat),
{
    let len = hash.unicode_len();
    if difficulty > len {
        return false;
    }
    let mut i: usize = 0;
    while i < difficulty
        invariant
            i <= difficulty <= hash@.len(),
            forall|j: int| 0 <= j < i ==> #[trigger] hash@[j] == '0',
        decreases difficulty - i,
    {
        if hash.get_char(i) != '0' {
            return false;
        }
        i = i + 1;
    }
    true
}

/// One record of the chain. `hash` caches the digest of the other fields; it is
/// kept in step by `recompute_hash`, which field assignments do not call.
pub struct Block {
    pub index: u64,
    pub timestamp: i64,
    pub data: String,
    pub previous_hash: String,
    pub nonce: u64,
    pub hash: String,
}

impl Block {
    /// The digest of the block's fields with the given nonce.
    pub open spec fn digest_with_nonce(&self, nonce: u64) -> Seq<char> {
        block_digest(self.index, self.timestamp, self.data@, self.previous_hash@, nonce)
    }

    /// The digest of the block's current fields.
    pub open spec fn computed_hash(&self) -> Seq<char> {
        self.digest_with_nonce(self.nonce)
    }

    /// The cached hash agrees with the block's fields.
    pub open spec fn hash_matches(&self) -> bool {
        self.hash@ == self.computed_hash()
    }

    /// Index, timestamp, data and previous hash agree.
    pub open spec fn same_payload(&self, other: &Block) -> bool {
        &&& self.index == other.index
        &&& self.timestamp == other.timestamp
        &&& self.data@ == other.data@
        &&& self.previous_hash@ == other.previous_hash@
    }

    /// The block's hash with the given nonce would meet the difficulty.
    pub open spec fn nonce_meets(&self, nonce: u64, difficulty: nat) -> bool {
        meets_target(self.digest_with_nonce(nonce), difficulty)
    }

    /// What `recompute_hash` leaves behind, given the block before the call.
    pub open spec fn recomputed_from(&self, before: &Block) -> bool {
        &&& self.same_payload(before)
        &&& self.nonce == before.nonce
        &&& self.hash_matches()
    }

    /// A block with the given fields, nonce 0 and its hash computed.
    pub fn with_timestamp(index: u64, timestamp: i64, data: String, previous_hash: String) -> (r:
        Block)
        ensures
            r.index == index,
            r.timestamp == timestamp,
            r.data@ == data@,
            r.previous_hash@ == previous_hash@,
            r.nonce == 0,
            r.hash_matches(),
    {
        let hash = digest(index, timestamp, data.as_str(), previous_hash.as_str(), 0);
        Block { index, timestamp, data, previous_hash, nonce: 0, hash }
    }

    /// A block stamped with the current time, nonce 0 and its hash computed.
    pub fn new(index: u64, data: String, previous_hash: String) -> (r: Block)
        ensures
            r.index == index,
            r.data@ == data@,
            r.previous_hash@ == previous_hash@,
            r.nonce == 0,
            r.hash_matches(),
    {
        let timestamp = current_timestamp();
        Block::with_timestamp(index, timestamp, data, previous_hash)
    }

    /// The digest of the block's current fields.
    pub fn calculate_hash(&self) -> (r: String)
        ensures
            r@ == self.computed_hash(),
            r@.len() == 64,
    {
        digest(self.index, self.timestamp, self.data.as_str(), self.previous_hash.as_str(), self.nonce)
    }

    /// Brings the cached hash in step with the fields.
    pub fn recompute_hash(&mut self)
        ensures
            final(self).recomputed_from(old(self)),
    {
        self.hash = self.calculate_hash();
    }

    /// Searches for a nonce meeting `difficulty`, trying at most `max_attempts`
    /// further nonces. The stored hash is tested first; then the nonce is
    /// raised by one and the hash recomputed, until the target is met, the
    /// attempts are spent or the nonce reaches `u64::MAX`. Returns whether the
    /// stored hash meets the target at the end.
    pub fn mine_attempts(&mut self, difficulty: usize, max_attempts: u64) -> (found: bool)
        ensures
            final(self).same_payload(old(self)),
            old(self).nonce <= final(self).nonce,
            final(self).nonce - old(self).nonce <= max_attempts,
            final(self).nonce == old(self).nonce ==> final(self).hash@ == old(self).hash@,
            final(self).nonce != old(self).nonce ==> final(self).hash_matches(),
            old(self).hash_matches() ==> final(self).hash_matches(),
            found == meets_target(final(self).hash@, difficulty as nat),
            final(self).nonce != old(self).nonce ==> !meets_target(
                old(self).hash@,
                difficulty as nat,
            ),
            forall|n: u64|
                old(self).nonce < n < final(self).nonce ==> !#[trigger] old(self).nonce_meets(
                    n,
                    difficulty as nat,
                ),
            !found ==> final(self).nonce == u64::MAX || final(self).nonce - old(self).nonce
                == max_attempts,
    {
        let ghost start: Block = *self;
        let mut attempts: u64 = 0;
        let mut found = meets_difficulty(self.hash.as_str(), difficulty);
        while !found && self.nonce < u64::MAX && attempts < max_attempts
            invariant
                self.same_payload(&start),
                self.nonce == start.nonce + attempts,
                attempts <= max_attempts,
                attempts == 0 ==> self.hash@ == start.hash@,
                attempts != 0 ==> self.hash_matches(),
                start.hash_matches() ==> self.hash_matches(),
                found == meets_target(self.hash@, difficulty as nat),
                attempts != 0 ==> !meets_target(start.hash@, difficulty as nat),
                forall|n: u64|
                    start.nonce < n < self.nonce ==> !#[trigger] start.nonce_meets(
                        n,
                        difficulty as nat,
                    ),
            decreases max_attempts - attempts,
        {
            let ghost prev: Block = *self;
            self.nonce = self.nonce + 1;
            attempts = attempts + 1;
            self.recompute_hash();
            found = meets_difficulty(self.hash.as_str(), difficulty);
            assert forall|n: u64|
                start.nonce < n < self.nonce implies !#[trigger] start.nonce_meets(
                    n,
                    difficulty as nat,
                ) by {
                if n == prev.nonce {
                    assert(prev.hash_matches());
                }
            }
        }
        found
    }

    /// Mines the block: from the current nonce upward, the first nonce whose
    /// hash starts with `difficulty` zeros. Returns false only when the nonce
    /// range is exhausted without a hit.
    pub fn mine_block(&mut self, difficulty: usize) -> (found: bool)
        ensures
            final(self).same_payload(old(self)),
            old(self).nonce <= final(self).nonce,
            final(self).nonce == old(self).nonce ==> final(self).hash@ == old(self).hash@,
            final(self).nonce != old(self).nonce ==> final(self).hash_matches(),
            old(self).hash_matches() ==> final(self).hash_matches(),
            found == meets_target(final(self).hash@, difficulty as nat),
            final(self).nonce != old(self).nonce ==> !meets_target(
                old(self).hash@,
                difficulty as nat,
            ),
            forall|n: u64|
                old(self).nonce < n < final(self).nonce ==> !#[trigger] old(self).nonce_meets(
                    n,
                    difficulty as nat,
                ),
            !found ==> final(self).nonce == u64::MAX,
    {
        self.mine_attempts(difficulty, u64::MAX)
    }
}

/// Recomputing the hash twice in a row on an unchanged block gives the same
/// hash both times.
pub proof fn lemma_recompute_hash_idempotent(before: Block, once: Block, twice: Block)
    requires
        once.recomputed_from(&before),
        twice.recomputed_from(&once),
    ensures
        twice.hash@ == once.hash@,
        twice.same_payload(&before),
        twice.nonce == before.nonce,
{
}

} // verus!
