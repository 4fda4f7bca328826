//! The rule that picks the tip.

use crate::consensus::store::BlockStore;
use crate::types::block::{Block, BlockHash, BlockView};
use vstd::prelude::*;

verus! {

/// A rule that decides whether a new block replaces the current tip.
pub trait ForkChoice {
    /// Whether `candidate` is preferred to the tip `tip` of a store that
    /// holds `blocks`.
    spec fn prefers(
        &self,
        blocks: Map<BlockHash, BlockView>,
        tip: Option<BlockHash>,
        candidate: BlockView,
    ) -> bool;

    /// Whether `candidate` should replace `current_tip`.
    fn should_update_tip<S: BlockStore>(
        &self,
        store: &S,
        current_tip: Option<BlockHash>,
        candidate: &Block,
    ) -> (r: bool)
        ensures
            r == self.prefers(store.blocks(), current_tip, candidate@),
    ;
}

/// Whether a block at `candidate_height` is preferred under the
/// longest-chain rule: there is no tip, or the tip's block is not in the
/// store, or the candidate is strictly higher than the tip's block.
pub open spec fn longest_chain_prefers(
    blocks: Map<BlockHash, BlockView>,
    tip: Option<BlockHash>,
    candidate_height: u64,
) -> bool {
    match tip {
        None => true,
        Some(t) => !blocks.contains_key(t) || candidate_height > blocks[t].header.height,
    }
}

/// Longest chain by height; on equal heights the incumbent stays.
#[derive(Clone, Copy, Debug)]
pub struct LongestChainForkChoice;

impl Default for LongestChainForkChoice {
    fn default() -> (f: LongestChainForkChoice) {
        LongestChainForkChoice
    }
}

impl ForkChoice for LongestChainForkChoice {
    open spec fn prefers(
        &self,
        blocks: Map<BlockHash, BlockView>,
        tip: Option<BlockHash>,
        candidate: BlockView,
    ) -> bool {
        longest_chain_prefers(blocks, tip, candidate.header.height)
    }

    fn should_update_tip<S: BlockStore>(
        &self,
        store: &S,
        current_tip: Option<BlockHash>,
        candidate: &Block,
    ) -> (r: bool) {
        let new_height = candidate.header.height;
        match current_tip {
            None => true,
            Some(tip_hash) => match store.get_block(&tip_hash) {
                Some(tip_block) => new_height > tip_block.header.height,
                None => true,
            },
        }
    }
}

} // verus!
