//! An ordered sequence of hash-linked blocks, with tamper inspection.
use vstd::prelude::*;
use crate::block::{meets_target, Block};

verus! {

/// Block `i` is sound: its cached hash agrees with its fields, and it names its
/// predecessor's stored hash (the first block has no predecessor to name).
pub open spec fn block_valid_at(blocks: Seq<Block>, i: int) -> bool {
    &&& blocks[i].hash_matches()
    &&& (i > 0 ==> blocks[i].previous_hash@ == blocks[i - 1].hash@)
}

/// Every block of the sequence is sound.
pub open spec fn all_valid(blocks: Seq<Block>) -> bool {
    forall|i: int| 0 <= i < blocks.len() ==> #[trigger] block_valid_at(blocks, i)
}

/// `after` is `before` with block `i`'s data replaced by `data` and its hash
/// recomputed; every other block is untouched.
pub open spec fn payload_replaced(before: Seq<Block>, after: Seq<Block>, i: int, data: Seq<char>) -> bool {
    &&& after.len() == before.len()
    &&& 0 <= i < before.len()
    &&& forall|j: int| 0 <= j < before.len() && j != i ==> #[trigger] after[j] == before[j]
    &&& after[i].index == before[i].index
    &&& after[i].timestamp == before[i].timestamp
    &&& after[i].data@ == data
    &&& after[i].previous_hash@ == before[i].previous_hash@
    &&& after[i].nonce == before[i].nonce
    &&& after[i].hash_matches()
}

/// The sentinel that the first block names as its predecessor's hash.
pub open spec fn genesis_previous_hash() -> Seq<char> {
    seq!['0']
}

/// A chain of blocks. Appending does not check anything, so a chain may be
/// invalid; `first_invalid` and `validate` inspect it.
pub struct Chain {
    pub blocks: Vec<Block>,
}

impl Chain {
    /// An empty chain.
    pub fn new() -> (r: Chain)
        ensures
            r.blocks@.len() == 0,
    {
        Chain { blocks: Vec::new() }
    }

    /// Adds a block at the end, without any check.
    pub fn append(&mut self, block: Block)
        ensures
            final(self).blocks@ == old(self).blocks@.push(block),
    {
        self.blocks.push(block);
    }

    /// The number of blocks.
    pub fn len(&self) -> (r: usize)
        ensures
            r == self.blocks@.len(),
    {
        self.blocks.len()
    }

    /// The position of the first unsound block, if any.
    pub fn first_invalid(&self) -> (r: Option<usize>)
        ensures
            match r {
                None => all_valid(self.blocks@),
                Some(k) => {
                    &&& k < self.blocks@.len()
                    &&& !block_valid_at(self.blocks@, k as int)
                    &&& forall|j: int| 0 <= j < k ==> #[trigger] block_valid_at(self.blocks@, j)
                },
            },
    {
        let mut i: usize = 0;
        while i < self.blocks.len()
            invariant
                i <= self.blocks@.len(),
                forall|j: int| 0 <= j < i ==> #[trigger] block_valid_at(self.blocks@, j),
            decreases self.blocks@.len() - i,
        {
            let b = &self.blocks[i];
            let recomputed = b.calculate_hash();
            if recomputed != b.hash {
                return Some(i);
            }
            if i > 0 && b.previous_hash != self.blocks[i - 1].hash {
                return Some(i);
            }
            i = i + 1;
        }
        None
    }

    /// Whether every block is sound.
    pub fn validate(&self) -> (r: bool)
        ensures
            r == all_valid(self.blocks@),
    {
        match self.first_invalid() {
            None => true,
            Some(_) => false,
        }
    }

    /// Builds the next block (index = current length; previous hash = the last
    /// block's hash, or `"0"` for the first block), stamps it with the current
    /// time, mines it at `difficulty` and appends it. Returns whether mining
    /// met the target.
    pub fn add_block(&mut self, data: String, difficulty: usize) -> (found: bool)
        ensures
            final(self).blocks@.len() == old(self).blocks@.len() + 1,
            final(self).blocks@.drop_last() == old(self).blocks@,
            final(self).blocks@.last().index == old(self).blocks@.len(),
            final(self).blocks@.last().data@ == data@,
            final(self).blocks@.last().previous_hash@ == if old(self).blocks@.len() == 0 {
                genesis_previous_hash()
            } else {
                old(self).blocks@.last().hash@
            },
            final(self).blocks@.last().hash_matches(),
            found == meets_target(final(self).blocks@.last().hash@, difficulty as nat),
            all_valid(old(self).blocks@) ==> all_valid(final(self).blocks@),
    {
        let n = self.blocks.len();
        let previous_hash = if n == 0 {
            proof {
                reveal_strlit("0");
            }
            "0".to_owned()
        } else {
            self.blocks[n - 1].hash.clone()
        };
        let mut block = Block::new(n as u64, data, previous_hash);
        let found = block.mine_block(difficulty);
        proof {
            if all_valid(self.blocks@) {
                lemma_linked_block_extends_valid_chain(self.blocks@, block);
            }
        }
        self.blocks.push(block);
        assert(self.blocks@.drop_last() =~= old(self).blocks@);
        found
    }

    /// Overwrites the data of block `i` and recomputes that block's hash only;
    /// the next block's link to it is left as it was.
    pub fn mutate_payload(&mut self, i: usize, data: String)
        requires
            i < old(self).blocks@.len(),
        ensures
            payload_replaced(old(self).blocks@, final(self).blocks@, i as int, data@),
    {
        let mut block = self.blocks.remove(i);
        block.data = data;
        block.recompute_hash();
        self.blocks.insert(i, block);
    }
}

/// Replacing a block's data breaks the chain exactly one place further on: in
/// a sound chain with a block after position `i`, once the data of block `i`
/// is replaced so that its hash changes, every block up to `i` is still sound
/// and block `i + 1` is the first unsound one.
pub proof fn lemma_tamper_breaks_next_link(
    before: Seq<Block>,
    after: Seq<Block>,
    i: int,
    data: Seq<char>,
)
    requires
        all_valid(before),
        i + 1 < before.len(),
        payload_replaced(before, after, i, data),
        after[i].hash@ != before[i].hash@,
    ensures
        forall|j: int| 0 <= j <= i ==> #[trigger] block_valid_at(after, j),
        !block_valid_at(after, i + 1),
{
    assert(block_valid_at(before, i + 1));
    assert forall|j: int| 0 <= j <= i implies #[trigger] block_valid_at(after, j) by {
        assert(block_valid_at(before, j));
        if j > 0 {
            assert(after[j - 1] == before[j - 1]);
        }
    }
}

/// A sound chain stays sound when a block whose hash agrees with its fields,
/// and which names the last block's hash, is appended. Hence a chain built
/// from nothing by mining each block on top of the previous one is sound.
pub proof fn lemma_linked_block_extends_valid_chain(blocks: Seq<Block>, block: Block)
    requires
        all_valid(blocks),
        block.hash_matches(),
        blocks.len() > 0 ==> block.previous_hash@ == blocks.last().hash@,
    ensures
        all_valid(blocks.push(block)),
{
    let extended = blocks.push(block);
    assert forall|j: int| 0 <= j < extended.len() implies #[trigger] block_valid_at(extended, j) by {
        if j < blocks.len() {
            assert(block_valid_at(blocks, j));
        }
    }
}

} // verus!
