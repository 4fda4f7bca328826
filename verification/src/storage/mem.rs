//! A block store in memory, for tests and small networks.

use crate::consensus::store::{keyed_by_hash, BlockStore};
use crate::storage::rocksdb::StorageError;
use crate::types::block::{Block, BlockHash, BlockView};
use vstd::prelude::*;

verus! {

struct Entry {
    hash: BlockHash,
    block: Block,
}

/// The map that a list of entries stands for.
spec fn map_of(entries: Seq<Entry>) -> Map<BlockHash, BlockView>
    decreases entries.len(),
{
    if entries.len() == 0 {
        Map::empty()
    } else {
        map_of(entries.drop_last()).insert(entries.last().hash, entries.last().block@)
    }
}

/// No hash stands twice in the list.
spec fn distinct(entries: Seq<Entry>) -> bool {
    forall|i: int, j: int|
        0 <= i < j < entries.len() ==> (#[trigger] entries[i]).hash != (#[trigger] entries[j]).hash
}

/// Every entry stands under the hash of its block.
spec fn hashed(entries: Seq<Entry>) -> bool {
    forall|i: int|
        0 <= i < entries.len() ==> (#[trigger] entries[i]).hash
            == crate::types::block::block_hash(entries[i].block@)
}

proof fn lemma_keyed(entries: Seq<Entry>)
    requires
        distinct(entries),
        hashed(entries),
    ensures
        keyed_by_hash(map_of(entries)),
{
    lemma_map_of(entries);
    assert forall|h: BlockHash| map_of(entries).contains_key(h) implies
        crate::types::block::block_hash(#[trigger] map_of(entries)[h]) == h by {
        let i = choose|i: int| 0 <= i < entries.len() && (#[trigger] entries[i]).hash == h;
        assert(map_of(entries)[entries[i].hash] == entries[i].block@);
    }
}

proof fn lemma_map_of(entries: Seq<Entry>)
    requires
        distinct(entries),
    ensures
        map_of(entries).dom().finite(),
        map_of(entries).dom().len() == entries.len(),
        forall|i: int|
            0 <= i < entries.len() ==> map_of(entries).contains_key((#[trigger] entries[i]).hash)
                && map_of(entries)[entries[i].hash] == entries[i].block@,
        forall|h: BlockHash| #[trigger]
            map_of(entries).contains_key(h) ==> exists|i: int|
                0 <= i < entries.len() && (#[trigger] entries[i]).hash == h,
    decreases entries.len(),
{
    if entries.len() > 0 {
        let init = entries.drop_last();
        let last = entries.last();
        assert forall|i: int, j: int| 0 <= i < j < init.len() implies (#[trigger] init[i]).hash != (
        #[trigger] init[j]).hash by {
            assert(init[i] == entries[i]);
            assert(init[j] == entries[j]);
        }
        lemma_map_of(init);
        assert(last == entries[entries.len() - 1]);
        if map_of(init).contains_key(last.hash) {
            let i = choose|i: int| 0 <= i < init.len() && (#[trigger] init[i]).hash == last.hash;
            assert(init[i] == entries[i]);
            assert(false);
        }
        assert forall|i: int| 0 <= i < entries.len() implies map_of(entries).contains_key(
            (#[trigger] entries[i]).hash,
        ) && map_of(entries)[entries[i].hash] == entries[i].block@ by {
            if i < init.len() {
                assert(init[i] == entries[i]);
            }
        }
        assert forall|h: BlockHash| #[trigger] map_of(entries).contains_key(h) implies exists|
            i: int,
        |
            0 <= i < entries.len() && (#[trigger] entries[i]).hash == h by {
            if h == last.hash {
                assert(entries[entries.len() - 1].hash == h);
            } else {
                let i = choose|i: int| 0 <= i < init.len() && (#[trigger] init[i]).hash == h;
                assert(init[i] == entries[i]);
            }
        }
    }
}

/// A block store in memory: each hash once, and a tip.
pub struct InMemoryBlockStore {
    entries: Vec<Entry>,
    tip: Option<BlockHash>,
}

impl InMemoryBlockStore {
    #[verifier::type_invariant]
    spec fn well_formed(self) -> bool {
        distinct(self.entries@) && hashed(self.entries@)
    }

    /// An empty store without a tip.
    pub fn new() -> (s: InMemoryBlockStore)
        ensures
            s.blocks() == Map::<BlockHash, BlockView>::empty(),
            s.current_tip() is None,
    {
        InMemoryBlockStore { entries: Vec::new(), tip: None }
    }

    /// The number of blocks stored.
    pub fn len(&self) -> (n: usize)
        ensures
            self.blocks().dom().finite(),
            n == self.blocks().dom().len(),
            keyed_by_hash(self.blocks()),
    {
        proof {
            use_type_invariant(self);
            lemma_map_of(self.entries@);
            lemma_keyed(self.entries@);
        }
        self.entries.len()
    }

    /// Whether no block is stored.
    pub fn is_empty(&self) -> (b: bool)
        ensures
            b == (self.blocks() == Map::<BlockHash, BlockView>::empty()),
    {
        proof {
            use_type_invariant(self);
            lemma_map_of(self.entries@);
            if self.entries@.len() > 0 {
                assert(self.blocks().contains_key(self.entries@[0].hash));
            } else {
                assert(self.blocks() =~= Map::<BlockHash, BlockView>::empty());
            }
        }
        self.entries.len() == 0
    }

    fn position(&self, hash: &BlockHash) -> (r: Option<usize>)
        ensures
            match r {
                Some(i) => i < self.entries@.len() && self.entries@[i as int].hash == *hash,
                None => forall|j: int|
                    0 <= j < self.entries@.len() ==> (#[trigger] self.entries@[j]).hash != *hash,
            },
    {
        let mut i: usize = 0;
        while i < self.entries.len()
            invariant
                i <= self.entries.len(),
                forall|j: int| 0 <= j < i ==> (#[trigger] self.entries@[j]).hash != *hash,
            decreases self.entries.len() - i,
        {
            if self.entries[i].hash == *hash {
                return Some(i);
            }
            i += 1;
        }
        None
    }
}

impl Default for InMemoryBlockStore {
    fn default() -> (s: InMemoryBlockStore)
        ensures
            s.blocks() == Map::<BlockHash, BlockView>::empty(),
            s.current_tip() is None,
    {
        InMemoryBlockStore::new()
    }
}

impl BlockStore for InMemoryBlockStore {
    closed spec fn blocks(&self) -> Map<BlockHash, BlockView> {
        map_of(self.entries@)
    }

    closed spec fn current_tip(&self) -> Option<BlockHash> {
        self.tip
    }

    open spec fn reliable(&self) -> bool {
        true
    }

    fn get_block(&self, hash: &BlockHash) -> (r: Option<Block>)
        ensures
            keyed_by_hash(self.blocks()),
    {
        proof {
            use_type_invariant(self);
            lemma_map_of(self.entries@);
            lemma_keyed(self.entries@);
        }
        match self.position(hash) {
            Some(i) => Some(self.entries[i].block.clone()),
            None => None,
        }
    }

    fn put_block(&mut self, block: Block) -> (r: Result<(), StorageError>)
        ensures
            r is Ok,
    {
        proof {
            use_type_invariant(&*self);
            lemma_map_of(self.entries@);
        }
        let hash = block.compute_hash();
        let found = self.position(&hash);
        let ghost before = self.entries@;
        let ghost view = block@;
        let mut entries: Vec<Entry> = Vec::new();
        core::mem::swap(&mut self.entries, &mut entries);
        match found {
            Some(i) => {
                entries.set(i, Entry { hash, block });
                proof {
                    let after = entries@;
                    assert forall|a: int, b: int| 0 <= a < b < after.len() implies (
                    #[trigger] after[a]).hash != (#[trigger] after[b]).hash by {
                        assert(after[a].hash == before[a].hash);
                        assert(after[b].hash == before[b].hash);
                    }
                    assert forall|a: int| 0 <= a < after.len() implies (#[trigger] after[a]).hash
                        == crate::types::block::block_hash(after[a].block@) by {
                        if a != i {
                            assert(after[a] == before[a]);
                        }
                    }
                    lemma_map_of(after);
                    assert forall|h: BlockHash| map_of(after).contains_key(h) == map_of(
                        before,
                    ).insert(hash, view).contains_key(h) by {
                        if map_of(after).contains_key(h) {
                            let k = choose|k: int|
                                0 <= k < after.len() && (#[trigger] after[k]).hash == h;
                            assert(before[k].hash == h);
                        }
                        if map_of(before).contains_key(h) {
                            let k = choose|k: int|
                                0 <= k < before.len() && (#[trigger] before[k]).hash == h;
                            assert(after[k].hash == h);
                        }
                    }
                    assert forall|h: BlockHash| map_of(after).contains_key(h) implies map_of(
                        after,
                    )[h] == map_of(before).insert(hash, view)[h] by {
                        let k = choose|k: int|
                            0 <= k < after.len() && (#[trigger] after[k]).hash == h;
                        if k != i {
                            assert(before[k] == after[k]);
                        }
                    }
                    assert(map_of(after) =~= map_of(before).insert(hash, view));
                }
            },
            None => {
                entries.push(Entry { hash, block });
                proof {
                    let after = entries@;
                    assert(after.drop_last() =~= before);
                    assert forall|a: int, b: int| 0 <= a < b < after.len() implies (
                    #[trigger] after[a]).hash != (#[trigger] after[b]).hash by {
                        assert(after[a] == before[a]);
                        if b < before.len() {
                            assert(after[b] == before[b]);
                        }
                    }
                    assert forall|a: int| 0 <= a < after.len() implies (#[trigger] after[a]).hash
                        == crate::types::block::block_hash(after[a].block@) by {
                        if a < before.len() {
                            assert(after[a] == before[a]);
                        }
                    }
                }
            },
        }
        self.entries = entries;
        Ok(())
    }

    fn tip(&self) -> (r: Option<BlockHash>) {
        self.tip
    }

    fn set_tip(&mut self, hash: BlockHash) -> (r: Result<(), StorageError>)
        ensures
            r is Ok,
    {
        proof {
            use_type_invariant(&*self);
        }
        self.tip = Some(hash);
        Ok(())
    }
}

} // verus!
