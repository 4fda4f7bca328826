//! The engine: propose, validate, store, choose the tip.

use crate::consensus::config::ConsensusConfig;
use crate::consensus::error::{ConsensusError, ConsensusErrorView, ValidationErrorView};
use crate::consensus::fork_choice::{longest_chain_prefers, ForkChoice, LongestChainForkChoice};
use crate::consensus::proposer::{assembled, next_slot, Proposer, TxPool, TxSeq};
use crate::consensus::store::BlockStore;
use crate::consensus::validator::BlockValidator;
use crate::types::block::{block_hash, Block, BlockHash, BlockView};
use crate::types::AccountId;
use crate::validation::ml::{auth_failed_text, is_auth_failure};
use vstd::prelude::*;

verus! {

/// The height of the block that the tip points to, where that block is in
/// the store.
pub open spec fn tip_height(blocks: Map<BlockHash, BlockView>, tip: Option<BlockHash>) -> Option<
    u64,
> {
    match tip {
        Some(t) => if blocks.contains_key(t) {
            Some(blocks[t].header.height)
        } else {
            None
        },
        None => None,
    }
}

/// The tip, where one is set, points to a block that the store holds.
pub open spec fn tip_present(blocks: Map<BlockHash, BlockView>, tip: Option<BlockHash>) -> bool {
    tip matches Some(t) ==> blocks.contains_key(t)
}

/// The engine: a store, a validator, a fork-choice rule and a proposer. It
/// alone moves the tip of its store.
pub struct ConsensusEngine<S, V, F> {
    /// The limits the engine was made with.
    pub config: ConsensusConfig,
    store: S,
    validator: V,
    fork_choice: F,
    proposer: Proposer,
    rejected_ml: u64,
}

impl<S: BlockStore, V: BlockValidator, F: ForkChoice> ConsensusEngine<S, V, F> {
    /// The limits the engine was made with.
    pub closed spec fn config_of(&self) -> ConsensusConfig {
        self.config
    }

    /// The engine's store.
    pub closed spec fn store_of(&self) -> S {
        self.store
    }

    /// The engine's validator.
    pub closed spec fn validator_of(&self) -> V {
        self.validator
    }

    /// The engine's fork-choice rule.
    pub closed spec fn fork_choice_of(&self) -> F {
        self.fork_choice
    }

    /// The engine's proposer.
    pub closed spec fn proposer_of(&self) -> Proposer {
        self.proposer
    }

    /// How many blocks were refused so far because a verdict was negative.
    pub closed spec fn rejected_ml_of(&self) -> u64 {
        self.rejected_ml
    }

    /// Everything but the store and the counter is as in `other`.
    pub open spec fn same_parts(&self, other: &Self) -> bool {
        &&& self.config_of() == other.config_of()
        &&& self.validator_of() == other.validator_of()
        &&& self.fork_choice_of() == other.fork_choice_of()
        &&& self.proposer_of() == other.proposer_of()
    }

    /// An engine over `store` with the limits of `config`.
    pub fn new(config: ConsensusConfig, store: S, validator: V, fork_choice: F) -> (e: Self)
        ensures
            e.config_of() == config,
            e.store_of() == store,
            e.validator_of() == validator,
            e.fork_choice_of() == fork_choice,
            e.proposer_of().max_block_txs == config.max_block_txs,
            e.proposer_of().max_block_size_bytes == config.max_block_size_bytes,
            e.proposer_of().allow_empty_blocks == config.allow_empty_blocks,
            e.rejected_ml_of() == 0,
    {
        let proposer = Proposer::from_config(&config);
        ConsensusEngine { config, store, validator, fork_choice, proposer, rejected_ml: 0 }
    }

    /// The engine's store.
    pub fn store(&self) -> (s: &S)
        ensures
            *s == self.store_of(),
    {
        &self.store
    }

    /// The engine's store, to change it from outside; the engine itself
    /// goes through `import_block`.
    pub fn store_mut(&mut self) -> (s: &mut S)
        ensures
            *s == old(self).store_of(),
            final(self).store_of() == *final(s),
            final(self).same_parts(old(self)),
            final(self).rejected_ml_of() == old(self).rejected_ml_of(),
    {
        &mut self.store
    }

    /// The current tip, if one is set.
    pub fn tip(&self) -> (t: Option<BlockHash>)
        ensures
            t == self.store_of().current_tip(),
    {
        self.store.tip()
    }

    /// The block that the tip points to. `None` while the tip is set tells
    /// that the store has lost the tip's block.
    pub fn tip_block(&self) -> (b: Option<Block>)
        ensures
            match b {
                Some(b) => tip_height(self.store_of().blocks(), self.store_of().current_tip())
                    is Some && b@ == self.store_of().blocks()[self.store_of().current_tip()->0],
                None => tip_height(self.store_of().blocks(), self.store_of().current_tip())
                    is None,
            },
    {
        match self.store.tip() {
            Some(h) => self.store.get_block(&h),
            None => None,
        }
    }

    /// How many blocks were refused so far because a verdict was negative.
    pub fn blocks_rejected_ml(&self) -> (n: u64)
        ensures
            n == self.rejected_ml_of(),
    {
        self.rejected_ml
    }

    /// What an import of `block` does to an engine and returns: `before`
    /// and `after` are the engine before and after it, `r` the result.
    ///
    /// - Nothing but the store and the counter changes, and a store whose
    ///   writes never fail stays one.
    /// - A tip that pointed to a stored block still does.
    /// - The counter is one more where the block was refused because a
    ///   verdict was negative, unless it cannot grow; else it stays.
    /// - Over a store whose writes never fail, a block that the validator
    ///   cannot refuse is taken.
    /// - A block that is taken was valid, stands under its hash, and is the
    ///   tip where the fork-choice rule, asked of the store before, prefers
    ///   it.
    /// - A block that fails validation changes nothing in the store.
    /// - Where the store fails to write, the tip stays; the block is there
    ///   if and only if it was the tip that could not be written.
    pub open spec fn imported(
        before: Self,
        after: Self,
        block: BlockView,
        r: Result<BlockHash, ConsensusErrorView>,
    ) -> bool {
        let blocks = before.store_of().blocks();
        let tip = before.store_of().current_tip();
        let preferred = before.fork_choice_of().prefers(blocks, tip, block);
        &&& after.same_parts(&before)
        &&& after.store_of().reliable() == before.store_of().reliable()
        &&& tip_present(blocks, tip) ==> tip_present(
            after.store_of().blocks(),
            after.store_of().current_tip(),
        )
        &&& after.rejected_ml_of() == (if r == Err::<BlockHash, ConsensusErrorView>(
            ConsensusErrorView::Validation(ValidationErrorView::Custom(auth_failed_text())),
        ) && before.rejected_ml_of() < u64::MAX {
            (before.rejected_ml_of() + 1) as u64
        } else {
            before.rejected_ml_of()
        })
        &&& before.store_of().reliable() && (forall|e: ValidationErrorView|
            !#[trigger] before.validator_of().allows(block, Err(e))) ==> r is Ok
        &&& match r {
            Ok(h) => {
                &&& h == block_hash(block)
                &&& before.validator_of().allows(block, Ok(()))
                &&& after.store_of().blocks() == blocks.insert(h, block)
                &&& after.store_of().current_tip() == (if preferred {
                    Some(h)
                } else {
                    tip
                })
            },
            Err(ConsensusErrorView::Validation(e)) => {
                &&& before.validator_of().allows(block, Err(e))
                &&& after.store_of().blocks() == blocks
                &&& after.store_of().current_tip() == tip
            },
            Err(ConsensusErrorView::Storage(_)) => {
                &&& before.validator_of().allows(block, Ok(()))
                &&& after.store_of().current_tip() == tip
                &&& (after.store_of().blocks() == blocks || (preferred
                    && after.store_of().blocks() == blocks.insert(block_hash(block), block)))
            },
            Err(ConsensusErrorView::Other(_)) => false,
        }
    }

    /// Validates `block` and takes it into the chain: the block is stored
    /// under its hash, and becomes the tip where the fork-choice rule,
    /// asked before the block is stored, prefers it.
    pub fn import_block(&mut self, block: Block) -> (r: Result<BlockHash, ConsensusError>)
        ensures
            Self::imported(*old(self), *final(self), block@, result_of(r)),
    {
        match self.validator.validate(&block) {
            Err(e) => {
                if is_auth_failure(&e) && self.rejected_ml < u64::MAX {
                    self.rejected_ml = self.rejected_ml + 1;
                }
                let ghost refused = e@;
                let r = Err(ConsensusError::Validation(e));
                proof {
                    assert(old(self).validator_of().allows(block@, Err(refused)));
                    assert(result_of(r) == Err::<BlockHash, ConsensusErrorView>(
                        ConsensusErrorView::Validation(refused),
                    ));
                    assert(self.same_parts(old(self)));
                }
                return r;
            },
            Ok(_) => {},
        }
        let new_hash = block.compute_hash();
        let current_tip = self.store.tip();
        let should_update_tip = self.fork_choice.should_update_tip(
            &self.store,
            current_tip,
            &block,
        );
        match self.store.put_block(block) {
            Err(e) => {
                return Err(ConsensusError::Storage(e.to_text()));
            },
            Ok(_) => {},
        }
        if should_update_tip {
            match self.store.set_tip(new_hash) {
                Err(e) => {
                    return Err(ConsensusError::Storage(e.to_text()));
                },
                Ok(_) => {},
            }
        }
        Ok(new_hash)
    }

    /// The block that a proposal builds over an engine out of the batch
    /// `txs`: on top of the tip, for `proposer_id`, at `timestamp`.
    pub open spec fn proposed(
        before: Self,
        proposer_id: AccountId,
        txs: TxSeq,
        timestamp: u64,
    ) -> BlockView {
        assembled(
            next_slot(before.store_of().blocks(), before.store_of().current_tip()),
            proposer_id,
            txs,
            timestamp,
        )
    }

    /// Builds a block on top of the current tip out of what `tx_pool` hands
    /// over, imports it, and returns it with its hash: the block holds the
    /// batch that the pool hands over for the proposer's limits, and the
    /// engine and the result are those of importing that block. Over a
    /// store whose writes never fail, with a validator that refuses
    /// nothing, the proposal succeeds.
    pub fn propose_block<P: TxPool>(
        &mut self,
        proposer_id: AccountId,
        tx_pool: &mut P,
        timestamp: u64,
    ) -> (r: Result<(BlockHash, Block), ConsensusError>)
        ensures
            exists|txs: TxSeq|
                {
                    &&& #[trigger] old(tx_pool).hands_over(
                        old(self).proposer_of().max_block_txs,
                        old(self).proposer_of().max_block_size_bytes,
                        txs,
                    )
                    &&& txs.len() <= old(self).proposer_of().max_block_txs
                    &&& Self::imported(
                        *old(self),
                        *final(self),
                        Self::proposed(*old(self), proposer_id, txs, timestamp),
                        proposal_result_of(r),
                    )
                    &&& r matches Ok((_, b)) ==> b.txs@ == txs && b@ == Self::proposed(
                        *old(self),
                        proposer_id,
                        txs,
                        timestamp,
                    )
                },
            old(self).store_of().reliable() && (forall|b: BlockView, e: ValidationErrorView|
                !#[trigger] old(self).validator_of().allows(b, Err(e))) ==> r is Ok,
    {
        let block = self.proposer.build_block(&self.store, proposer_id, tx_pool, timestamp);
        let copy = block.clone();
        let ghost txs = block.txs@;
        let r = match self.import_block(copy) {
            Ok(hash) => Ok((hash, block)),
            Err(e) => Err(e),
        };
        proof {
            assert(old(tx_pool).hands_over(
                old(self).proposer_of().max_block_txs,
                old(self).proposer_of().max_block_size_bytes,
                txs,
            ));
        }
        r
    }
}

/// What the result of an import holds, as plain values.
pub open spec fn result_of(r: Result<BlockHash, ConsensusError>) -> Result<
    BlockHash,
    ConsensusErrorView,
> {
    match r {
        Ok(h) => Ok(h),
        Err(e) => Err(e@),
    }
}

/// What the result of a proposal says of the import in it.
pub open spec fn proposal_result_of(r: Result<(BlockHash, Block), ConsensusError>) -> Result<
    BlockHash,
    ConsensusErrorView,
> {
    match r {
        Ok((h, _)) => Ok(h),
        Err(e) => Err(e@),
    }
}

/// What a store holds and points to after a block was imported: the block
/// under its hash, and as the tip where it was preferred.
pub open spec fn after_import(
    blocks: Map<BlockHash, BlockView>,
    tip: Option<BlockHash>,
    b: BlockView,
    preferred: bool,
) -> (Map<BlockHash, BlockView>, Option<BlockHash>) {
    (
        blocks.insert(block_hash(b), b),
        if preferred {
            Some(block_hash(b))
        } else {
            tip
        },
    )
}

/// The block does not take the place of a different block under the hash
/// of the tip.
pub open spec fn keeps_tip_block(
    blocks: Map<BlockHash, BlockView>,
    tip: Option<BlockHash>,
    b: BlockView,
) -> bool {
    tip matches Some(t) ==> (blocks.contains_key(t) && block_hash(b) == t ==> blocks[t] == b)
}

/// Under the longest-chain rule an import never lowers the tip: where the
/// tip pointed to a block at some height, it points afterwards to a block
/// at that height or above. This holds of every import but one whose block
/// has the hash of the tip's block without being that block.
pub proof fn lemma_tip_never_lowers(
    blocks: Map<BlockHash, BlockView>,
    tip: Option<BlockHash>,
    b: BlockView,
)
    requires
        tip_height(blocks, tip) is Some,
        keeps_tip_block(blocks, tip, b),
    ensures
        ({
            let after = after_import(
                blocks,
                tip,
                b,
                longest_chain_prefers(blocks, tip, b.header.height),
            );
            tip_height(after.0, after.1) matches Some(h) && h >= tip_height(blocks, tip)->0
        }),
{
}

/// Under the longest-chain rule an import, whether it succeeds or fails,
/// never lowers the tip, and moves it only to a block that was taken and
/// is strictly higher. This holds of every import but one whose block has
/// the hash of the tip's block without being that block.
pub proof fn lemma_import_never_lowers_tip<S: BlockStore, V: BlockValidator>(
    before: ConsensusEngine<S, V, LongestChainForkChoice>,
    after: ConsensusEngine<S, V, LongestChainForkChoice>,
    block: BlockView,
    r: Result<BlockHash, ConsensusErrorView>,
)
    requires
        ConsensusEngine::imported(before, after, block, r),
        tip_height(before.store_of().blocks(), before.store_of().current_tip()) is Some,
        keeps_tip_block(before.store_of().blocks(), before.store_of().current_tip(), block),
    ensures
        tip_height(after.store_of().blocks(), after.store_of().current_tip()) matches Some(h) && h
            >= tip_height(before.store_of().blocks(), before.store_of().current_tip())->0,
        after.store_of().current_tip() != before.store_of().current_tip() ==> r is Ok
            && block.header.height > tip_height(
            before.store_of().blocks(),
            before.store_of().current_tip(),
        )->0,
{
}

/// What a store holds and points to after some blocks were imported one
/// after the other under the longest-chain rule.
pub open spec fn after_imports(
    blocks: Map<BlockHash, BlockView>,
    tip: Option<BlockHash>,
    bs: Seq<BlockView>,
) -> (Map<BlockHash, BlockView>, Option<BlockHash>)
    decreases bs.len(),
{
    if bs.len() == 0 {
        (blocks, tip)
    } else {
        let before = after_imports(blocks, tip, bs.drop_last());
        after_import(
            before.0,
            before.1,
            bs.last(),
            longest_chain_prefers(before.0, before.1, bs.last().header.height),
        )
    }
}

/// None of the imports takes the place of a different block under the hash
/// of the tip of its time.
pub open spec fn all_keep_tip_block(
    blocks: Map<BlockHash, BlockView>,
    tip: Option<BlockHash>,
    bs: Seq<BlockView>,
) -> bool
    decreases bs.len(),
{
    if bs.len() == 0 {
        true
    } else {
        let before = after_imports(blocks, tip, bs.drop_last());
        all_keep_tip_block(blocks, tip, bs.drop_last()) && keeps_tip_block(
            before.0,
            before.1,
            bs.last(),
        )
    }
}

/// Once the tip points to a block at some height, no later import under
/// the longest-chain rule sets it to a block below that height.
pub proof fn lemma_tip_monotone(
    blocks: Map<BlockHash, BlockView>,
    tip: Option<BlockHash>,
    bs: Seq<BlockView>,
)
    requires
        tip_height(blocks, tip) is Some,
        all_keep_tip_block(blocks, tip, bs),
    ensures
        ({
            let after = after_imports(blocks, tip, bs);
            tip_height(after.0, after.1) matches Some(h) && h >= tip_height(blocks, tip)->0
        }),
    decreases bs.len(),
{
    if bs.len() > 0 {
        lemma_tip_monotone(blocks, tip, bs.drop_last());
        let before = after_imports(blocks, tip, bs.drop_last());
        lemma_tip_never_lowers(before.0, before.1, bs.last());
    }
}

/// A tip that points to a stored block still does after an import,
/// whichever rule chose the tip: the block is stored before the tip moves
/// to it.
pub proof fn lemma_tip_stays_present(
    blocks: Map<BlockHash, BlockView>,
    tip: Option<BlockHash>,
    b: BlockView,
    preferred: bool,
)
    requires
        tip_present(blocks, tip),
    ensures
        ({
            let after = after_import(blocks, tip, b, preferred);
            tip_present(after.0, after.1)
        }),
        tip_present(blocks.insert(block_hash(b), b), tip),
{
}

} // verus!
