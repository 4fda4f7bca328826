//! Validity predicates over blocks, and their composition.

use crate::consensus::error::{ValidationError, ValidationErrorView};
use crate::types::block::{Block, BlockView};
use vstd::prelude::*;

verus! {

/// What a validator says of a block: nothing, or why the block is invalid.
pub type Outcome = Result<(), ValidationErrorView>;

/// What the result of a validation holds, as plain values.
pub open spec fn outcome_of(r: Result<(), ValidationError>) -> Outcome {
    match r {
        Ok(_) => Ok(()),
        Err(e) => Err(e@),
    }
}

/// A validity predicate over blocks.
///
/// `allows` says which outcomes the validator may give for a block. For a
/// validator that looks at the block alone it allows exactly one; for one
/// that asks an outside service it allows what the service's answers can
/// lead to.
pub trait BlockValidator {
    /// Whether `outcome` is one that validating `block` may give.
    spec fn allows(&self, block: BlockView, outcome: Outcome) -> bool;

    /// Validates `block`.
    fn validate(&self, block: &Block) -> (r: Result<(), ValidationError>)
        ensures
            self.allows(block@, outcome_of(r)),
    ;
}

/// A validator that accepts every block.
pub struct AcceptAllValidator;

impl BlockValidator for AcceptAllValidator {
    open spec fn allows(&self, block: BlockView, outcome: Outcome) -> bool {
        outcome is Ok
    }

    fn validate(&self, _block: &Block) -> (r: Result<(), ValidationError>) {
        Ok(())
    }
}

/// Two validators in sequence: the second is asked only when the first has
/// accepted, and the first failure is the result.
pub struct CombinedValidator<B, M> {
    pub base: B,
    pub ml: M,
}

impl<B, M> CombinedValidator<B, M> {
    /// Composes `base` and `ml`, in this order.
    pub fn new(base: B, ml: M) -> (v: CombinedValidator<B, M>)
        ensures
            v.base == base,
            v.ml == ml,
    {
        CombinedValidator { base, ml }
    }
}

impl<B: BlockValidator, M: BlockValidator> BlockValidator for CombinedValidator<B, M> {
    open spec fn allows(&self, block: BlockView, outcome: Outcome) -> bool {
        ||| outcome is Err && self.base.allows(block, outcome)
        ||| self.base.allows(block, Ok(())) && self.ml.allows(block, outcome)
    }

    fn validate(&self, block: &Block) -> (r: Result<(), ValidationError>) {
        match self.base.validate(block) {
            Err(e) => Err(e),
            Ok(_) => self.ml.validate(block),
        }
    }
}

} // verus!
