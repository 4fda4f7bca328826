//! What the consensus engine asks of a block store.

use crate::storage::rocksdb::StorageError;
use crate::types::block::{Block, BlockHash, BlockView};
use vstd::prelude::*;

verus! {

/// What a store holds: blocks by their hashes.
pub type BlockMap = Map<BlockHash, BlockView>;

/// A store of blocks under their hashes, with one pointer to the tip.
///
/// A store stands for a map from hashes to blocks and an optional tip. A
/// write either takes effect as a whole or, where it fails, changes nothing
/// that a later read could see.
pub trait BlockStore {
    /// The blocks that the store holds, by hash.
    spec fn blocks(&self) -> BlockMap;

    /// The tip that the store points to.
    spec fn current_tip(&self) -> Option<BlockHash>;

    /// Whether the store's writes never fail.
    spec fn reliable(&self) -> bool;

    /// The block stored under `hash`, if there is one.
    fn get_block(&self, hash: &BlockHash) -> (r: Option<Block>)
        ensures
            match r {
                Some(b) => self.blocks().contains_key(*hash) && b@ == self.blocks()[*hash],
                None => !self.blocks().contains_key(*hash),
            },
    ;

    /// Stores `block` under its hash, in place of what was there.
    fn put_block(&mut self, block: Block) -> (r: Result<(), StorageError>)
        ensures
            final(self).current_tip() == old(self).current_tip(),
            final(self).reliable() == old(self).reliable(),
            old(self).reliable() ==> r is Ok,
            r is Ok ==> final(self).blocks() == old(self).blocks().insert(
                crate::types::block::block_hash(block@),
                block@,
            ),
            r is Err ==> final(self).blocks() == old(self).blocks(),
    ;

    /// The current tip, if one is set.
    fn tip(&self) -> (r: Option<BlockHash>)
        ensures
            r == self.current_tip(),
    ;

    /// Points the tip to `hash`.
    fn set_tip(&mut self, hash: BlockHash) -> (r: Result<(), StorageError>)
        ensures
            final(self).blocks() == old(self).blocks(),
            final(self).reliable() == old(self).reliable(),
            old(self).reliable() ==> r is Ok,
            r is Ok ==> final(self).current_tip() == Some(hash),
            r is Err ==> final(self).current_tip() == old(self).current_tip(),
    ;
}

/// Every block of the map stands under its own hash.
pub open spec fn keyed_by_hash(blocks: Map<BlockHash, BlockView>) -> bool {
    forall|h: BlockHash|
        blocks.contains_key(h) ==> crate::types::block::block_hash(#[trigger] blocks[h]) == h
}

/// Putting a block keeps every block under its own hash, and putting a
/// block that is there already changes nothing.
pub proof fn lemma_put_keeps_keys(blocks: Map<BlockHash, BlockView>, b: BlockView)
    requires
        keyed_by_hash(blocks),
    ensures
        keyed_by_hash(blocks.insert(crate::types::block::block_hash(b), b)),
        blocks.contains_key(crate::types::block::block_hash(b)) && blocks[crate::types::block::block_hash(
            b,
        )] == b ==> blocks.insert(crate::types::block::block_hash(b), b) == blocks,
{
    let h = crate::types::block::block_hash(b);
    if blocks.contains_key(h) && blocks[h] == b {
        assert(blocks.insert(h, b) =~= blocks);
    }
}

/// After a block was put into a store, whichever store it is, looking up
/// the block's hash finds a block with the same canonical bytes.
pub proof fn lemma_store_roundtrip<S: BlockStore>(before: S, after: S, b: BlockView)
    requires
        after.blocks() == before.blocks().insert(crate::types::block::block_hash(b), b),
    ensures
        after.blocks().contains_key(crate::types::block::block_hash(b)),
        crate::types::block::enc_block(after.blocks()[crate::types::block::block_hash(b)])
            == crate::types::block::enc_block(b),
{
}

} // verus!
