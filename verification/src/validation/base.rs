//! Structural checks that need the block alone: the number of transactions,
//! the size of the canonical bytes, and that no artefact is registered twice.

use crate::consensus::config::ConsensusConfig;
use crate::consensus::error::{ValidationError, ValidationErrorView};
use crate::consensus::validator::{BlockValidator, Outcome};
use crate::text;
use crate::text::decimal_text;
use crate::types::block;
use crate::types::block::{tx_views, Block, BlockView};
use crate::types::tx::{Transaction, TransactionView};
use crate::types::Aid;
use vstd::prelude::*;
use vstd::string::StringExecFns;

verus! {

/// The message for a block of `count` transactions where `max` are allowed.
pub open spec fn tx_count_text(count: nat, max: nat) -> Seq<char> {
    "block has "@ + text::decimal(count) + " txs, exceeds max_block_txs="@ + text::decimal(max)
}

/// The message for a block of `size` bytes where `max` are allowed.
pub open spec fn size_text(size: nat, max: nat) -> Seq<char> {
    "block size "@ + text::decimal(size) + " bytes exceeds max_block_size_bytes="@ + text::decimal(
        max,
    )
}

/// The message for an artefact registered twice.
pub open spec fn duplicate_text() -> Seq<char> {
    "duplicate Aid in TxRegisterModel within the same block"@
}

/// The artefacts that some transactions register, in their order.
pub open spec fn registered_aids(txs: Seq<TransactionView>) -> Seq<Aid>
    decreases txs.len(),
{
    if txs.len() == 0 {
        Seq::empty()
    } else {
        let init = registered_aids(txs.drop_last());
        match txs.last() {
            TransactionView::RegisterModel(t) => init.push(t.aid),
            _ => init,
        }
    }
}

/// Some artefact stands twice in the list.
pub open spec fn has_duplicate(aids: Seq<Aid>) -> bool {
    exists|i: int, j: int| 0 <= i < j < aids.len() && aids[i] == aids[j]
}

/// What the structural checks say of a block under the two limits: the
/// first rule broken, in the order count, size, duplicates.
pub open spec fn base_outcome(max_txs: usize, max_bytes: usize, b: BlockView) -> Outcome {
    if b.txs.len() > max_txs {
        Err(ValidationErrorView::Custom(tx_count_text(b.txs.len(), max_txs as nat)))
    } else if block::enc_block(b).len() > max_bytes {
        Err(ValidationErrorView::Custom(size_text(block::enc_block(b).len(), max_bytes as nat)))
    } else if has_duplicate(registered_aids(b.txs)) {
        Err(ValidationErrorView::Custom(duplicate_text()))
    } else {
        Ok(())
    }
}

/// The structural validator.
#[derive(Clone, Copy, Debug)]
pub struct BaseValidity {
    max_block_txs: usize,
    max_block_size_bytes: usize,
}

impl BaseValidity {
    /// The most transactions a block may hold.
    pub closed spec fn max_txs(self) -> usize {
        self.max_block_txs
    }

    /// The most bytes a block's canonical encoding may take.
    pub closed spec fn max_bytes(self) -> usize {
        self.max_block_size_bytes
    }

    /// A validator with the limits of `cfg`.
    pub fn new(cfg: &ConsensusConfig) -> (v: BaseValidity)
        ensures
            v.max_txs() == cfg.max_block_txs,
            v.max_bytes() == cfg.max_block_size_bytes,
    {
        BaseValidity {
            max_block_txs: cfg.max_block_txs,
            max_block_size_bytes: cfg.max_block_size_bytes,
        }
    }

    /// Checks the number of transactions.
    pub fn check_tx_count(&self, block: &Block) -> (r: Result<(), ValidationError>)
        ensures
            match r {
                Ok(_) => block@.txs.len() <= self.max_txs(),
                Err(e) => block@.txs.len() > self.max_txs() && e@ == ValidationErrorView::Custom(
                    tx_count_text(block@.txs.len(), self.max_txs() as nat),
                ),
            },
    {
        let tx_count = block.txs.len();
        if tx_count > self.max_block_txs {
            let msg = String::from_str("block has ").concat(decimal_text(tx_count).as_str()).concat(
                " txs, exceeds max_block_txs=",
            ).concat(decimal_text(self.max_block_txs).as_str());
            return Err(ValidationError::Custom(msg));
        }
        Ok(())
    }

    /// Checks the size of the canonical bytes.
    pub fn check_block_size(&self, block: &Block) -> (r: Result<(), ValidationError>)
        ensures
            match r {
                Ok(_) => block::enc_block(block@).len() <= self.max_bytes(),
                Err(e) => block::enc_block(block@).len() > self.max_bytes() && e@
                    == ValidationErrorView::Custom(
                    size_text(block::enc_block(block@).len(), self.max_bytes() as nat),
                ),
            },
    {
        let bytes = block.canonical_bytes();
        let size = bytes.len();
        if size > self.max_block_size_bytes {
            let msg = String::from_str("block size ").concat(decimal_text(size).as_str()).concat(
                " bytes exceeds max_block_size_bytes=",
            ).concat(decimal_text(self.max_block_size_bytes).as_str());
            return Err(ValidationError::Custom(msg));
        }
        Ok(())
    }

    /// Checks that no artefact is registered twice.
    #[verifier::loop_isolation(false)]
    pub fn check_duplicate_aids(&self, block: &Block) -> (r: Result<(), ValidationError>)
        ensures
            match r {
                Ok(_) => !has_duplicate(registered_aids(block@.txs)),
                Err(e) => has_duplicate(registered_aids(block@.txs)) && e@
                    == ValidationErrorView::Custom(duplicate_text()),
            },
    {
        let mut seen: Vec<Aid> = Vec::new();
        let ghost all = tx_views(block.txs@);
        let mut i: usize = 0;
        while i < block.txs.len()
            invariant
                i <= block.txs.len(),
                all == tx_views(block.txs@),
                seen@ == registered_aids(all.take(i as int)),
                !has_duplicate(seen@),
            decreases block.txs.len() - i,
        {
            proof {
                let next = all.take(i + 1);
                assert(next.drop_last() =~= all.take(i as int));
                assert(next.last() == all[i as int]);
            }
            match &block.txs[i] {
                Transaction::RegisterModel(t) => {
                    let mut k: usize = 0;
                    while k < seen.len()
                        invariant
                            k <= seen.len(),
                            forall|m: int| 0 <= m < k ==> seen@[m] != t.aid,
                        decreases seen.len() - k,
                    {
                        if seen[k] == t.aid {
                            proof {
                                let upto = registered_aids(all.take(i + 1));
                                assert(upto == seen@.push(t.aid));
                                assert(upto[k as int] == upto[seen@.len() as int]);
                                lemma_duplicate_stays(all, i + 1);
                                assert(all.take(all.len() as int) =~= all);
                            }
                            return Err(
                                ValidationError::Custom(
                                    String::from_str(
                                        "duplicate Aid in TxRegisterModel within the same block",
                                    ),
                                ),
                            );
                        }
                        k += 1;
                    }
                    let ghost before = seen@;
                    seen.push(t.aid);
                    proof {
                        if has_duplicate(seen@) {
                            let (a, b) = choose|a: int, b: int|
                                0 <= a < b < seen@.len() && seen@[a] == seen@[b];
                            if b < before.len() {
                                assert(before[a] == before[b]);
                            }
                            assert(false);
                        }
                    }
                },
                _ => {},
            }
            i += 1;
        }
        proof {
            assert(all.take(i as int) =~= all);
        }
        Ok(())
    }
}

/// A duplicate among the first transactions is a duplicate among all.
proof fn lemma_duplicate_stays(txs: Seq<TransactionView>, upto: int)
    requires
        0 <= upto <= txs.len(),
        has_duplicate(registered_aids(txs.take(upto))),
    ensures
        has_duplicate(registered_aids(txs)),
    decreases txs.len() - upto,
{
    if upto < txs.len() {
        let next = txs.take(upto + 1);
        assert(next.drop_last() =~= txs.take(upto));
        let small = registered_aids(txs.take(upto));
        let big = registered_aids(next);
        let (a, b) = choose|a: int, b: int| 0 <= a < b < small.len() && small[a] == small[b];
        assert(big[a] == small[a] && big[b] == small[b]);
        lemma_duplicate_stays(txs, upto + 1);
    } else {
        assert(txs.take(upto) =~= txs);
    }
}

impl BlockValidator for BaseValidity {
    open spec fn allows(&self, block: BlockView, outcome: Outcome) -> bool {
        outcome == base_outcome(self.max_txs(), self.max_bytes(), block)
    }

    fn validate(&self, block: &Block) -> (r: Result<(), ValidationError>) {
        match self.check_tx_count(block) {
            Err(e) => {
                return Err(e);
            },
            Ok(_) => {},
        }
        match self.check_block_size(block) {
            Err(e) => {
                return Err(e);
            },
            Ok(_) => {},
        }
        self.check_duplicate_aids(block)
    }
}

/// A block without transactions passes the structural checks, provided its
/// bytes fit the size limit.
pub proof fn lemma_empty_block_passes(max_txs: usize, max_bytes: usize, b: BlockView)
    requires
        b.txs.len() == 0,
        block::enc_block(b).len() <= max_bytes,
    ensures
        base_outcome(max_txs, max_bytes, b) is Ok,
{
}

/// A block with exactly as many transactions as allowed passes the count
/// check, and so the structural checks when it fits the size limit and
/// registers nothing twice; a block with one more fails, with the message
/// of the count.
pub proof fn lemma_tx_count_boundary(max_txs: usize, max_bytes: usize, full: BlockView, over: BlockView)
    requires
        full.txs.len() == max_txs,
        block::enc_block(full).len() <= max_bytes,
        !has_duplicate(registered_aids(full.txs)),
        over.txs.len() == max_txs + 1,
    ensures
        base_outcome(max_txs, max_bytes, full) is Ok,
        base_outcome(max_txs, max_bytes, over) == Err::<(), ValidationErrorView>(
            ValidationErrorView::Custom(tx_count_text(over.txs.len(), max_txs as nat)),
        ),
{
}

/// A block whose bytes are exactly as many as allowed passes the size
/// check; a block with one more byte fails, with the message of the size.
pub proof fn lemma_size_boundary(max_txs: usize, max_bytes: usize, full: BlockView, over: BlockView)
    requires
        full.txs.len() <= max_txs,
        block::enc_block(full).len() == max_bytes,
        !has_duplicate(registered_aids(full.txs)),
        over.txs.len() <= max_txs,
        block::enc_block(over).len() == max_bytes + 1,
    ensures
        base_outcome(max_txs, max_bytes, full) is Ok,
        base_outcome(max_txs, max_bytes, over) == Err::<(), ValidationErrorView>(
            ValidationErrorView::Custom(size_text(block::enc_block(over).len(), max_bytes as nat)),
        ),
{
}

} // verus!
