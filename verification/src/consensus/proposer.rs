//! Building a candidate block on top of the current tip.

use crate::consensus::config::ConsensusConfig;
use crate::consensus::store::BlockStore;
use crate::types::block::{tx_views, Block, BlockHash, BlockView, Header, HeaderView};
use crate::types::tx::Transaction;
use crate::types::{AccountId, Hash256};
use vstd::prelude::*;

verus! {

/// Transactions in their order.
pub type TxSeq = Seq<Transaction>;

/// A pool of pending transactions.
pub trait TxPool {
    /// Whether `txs` is a batch that the pool, as it stands, hands over
    /// when asked for at most `max_txs` transactions of about `max_bytes`
    /// bytes.
    spec fn hands_over(&self, max_txs: usize, max_bytes: usize, txs: TxSeq) -> bool;

    /// Takes a batch of at most `max_txs` transactions out of the pool, for
    /// a block of about `max_bytes` bytes.
    fn select_for_block(&mut self, max_txs: usize, max_bytes: usize) -> (txs: Vec<Transaction>)
        ensures
            txs@.len() <= max_txs,
            old(self).hands_over(max_txs, max_bytes, txs@),
    ;
}

/// The parent and the height of the next block over a store that holds
/// `blocks` and points to `tip`: the tip and one more than its height where
/// the tip's block is there, else the all-zero hash and height 0. A height
/// that cannot grow stays.
pub open spec fn next_slot(blocks: Map<BlockHash, BlockView>, tip: Option<BlockHash>) -> (
    BlockHash,
    u64,
) {
    match tip {
        Some(t) => if blocks.contains_key(t) {
            let h = blocks[t].header.height;
            (
                t,
                if h < u64::MAX {
                    (h + 1) as u64
                } else {
                    h
                },
            )
        } else {
            (BlockHash(Hash256::spec_zero()), 0)
        },
        None => (BlockHash(Hash256::spec_zero()), 0),
    }
}

/// The block that a proposer puts together.
pub open spec fn assembled(
    slot: (BlockHash, u64),
    proposer: AccountId,
    txs: Seq<Transaction>,
    timestamp: u64,
) -> BlockView {
    BlockView {
        header: HeaderView {
            parent: slot.0,
            height: slot.1,
            timestamp,
            proposer,
            pos_proof: None,
        },
        txs: tx_views(txs),
    }
}

/// Builds candidate blocks. It keeps nothing of the chain: store and pool
/// come with each call.
#[derive(Clone, Copy, Debug)]
pub struct Proposer {
    /// Most transactions to ask the pool for.
    pub max_block_txs: usize,
    /// Size in bytes to ask the pool to stay under.
    pub max_block_size_bytes: usize,
    /// Whether a block without transactions may be proposed.
    pub allow_empty_blocks: bool,
}

impl Proposer {
    /// A proposer with the limits of `cfg`.
    pub fn from_config(cfg: &ConsensusConfig) -> (p: Proposer)
        ensures
            p.max_block_txs == cfg.max_block_txs,
            p.max_block_size_bytes == cfg.max_block_size_bytes,
            p.allow_empty_blocks == cfg.allow_empty_blocks,
    {
        Proposer {
            max_block_txs: cfg.max_block_txs,
            max_block_size_bytes: cfg.max_block_size_bytes,
            allow_empty_blocks: cfg.allow_empty_blocks,
        }
    }

    /// The parent and the height for the next block over `store`.
    pub fn next_parent<S: BlockStore>(store: &S) -> (slot: (BlockHash, u64))
        ensures
            slot == next_slot(store.blocks(), store.current_tip()),
    {
        match store.tip() {
            Some(tip_hash) => match store.get_block(&tip_hash) {
                Some(tip_block) => {
                    let h = tip_block.header.height;
                    (
                        tip_hash,
                        if h < u64::MAX {
                            h + 1
                        } else {
                            h
                        },
                    )
                },
                None => (BlockHash(Hash256::zero()), 0),
            },
            None => (BlockHash(Hash256::zero()), 0),
        }
    }

    /// Puts a block together from its slot, its proposer, the transactions
    /// taken from the pool and the time.
    pub fn assemble(
        slot: (BlockHash, u64),
        proposer: AccountId,
        txs: Vec<Transaction>,
        timestamp: u64,
    ) -> (block: Block)
        ensures
            block@ == assembled(slot, proposer, txs@, timestamp),
            block.txs@ == txs@,
    {
        let header = Header {
            parent: slot.0,
            height: slot.1,
            timestamp,
            proposer,
            pos_proof: None,
        };
        Block { header, txs }
    }

    /// Builds a block on top of the tip of `store` out of what `tx_pool`
    /// hands over. The block is neither validated nor stored. An empty
    /// batch gives an empty block, whether or not empty blocks are allowed:
    /// to skip it is left to the caller.
    pub fn build_block<S: BlockStore, P: TxPool>(
        &self,
        store: &S,
        proposer: AccountId,
        tx_pool: &mut P,
        timestamp: u64,
    ) -> (block: Block)
        ensures
            block@.header == (HeaderView {
                parent: next_slot(store.blocks(), store.current_tip()).0,
                height: next_slot(store.blocks(), store.current_tip()).1,
                timestamp,
                proposer,
                pos_proof: None,
            }),
            block@ == assembled(
                next_slot(store.blocks(), store.current_tip()),
                proposer,
                block.txs@,
                timestamp,
            ),
            block@.txs.len() <= self.max_block_txs,
            old(tx_pool).hands_over(self.max_block_txs, self.max_block_size_bytes, block.txs@),
    {
        let slot = Proposer::next_parent(store);
        let txs = tx_pool.select_for_block(self.max_block_txs, self.max_block_size_bytes);
        Proposer::assemble(slot, proposer, txs, timestamp)
    }
}

} // verus!
