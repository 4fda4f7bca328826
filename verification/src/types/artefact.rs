//! What the chain records of a registered model artefact.

use crate::types::{AccountId, Aid, EvidenceRef, EvidenceRefView};
use vstd::prelude::*;

verus! {

/// What an [`ArtefactMetadata`] holds, as plain values.
pub ghost struct ArtefactMetadataView {
    pub aid: Aid,
    pub owner: AccountId,
    pub evidence: EvidenceRefView,
    pub registered_at: u64,
}

/// A registered artefact: its identifier, its owner, the evidence it was
/// accepted with and the height of the block that first held it.
#[derive(Debug)]
pub struct ArtefactMetadata {
    /// Identifier of the artefact.
    pub aid: Aid,
    /// Current owner.
    pub owner: AccountId,
    /// Evidence in force when the artefact was accepted.
    pub evidence: EvidenceRef,
    /// Height at which the artefact was first accepted.
    pub registered_at: u64,
}

impl View for ArtefactMetadata {
    type V = ArtefactMetadataView;

    open spec fn view(&self) -> ArtefactMetadataView {
        ArtefactMetadataView {
            aid: self.aid,
            owner: self.owner,
            evidence: self.evidence@,
            registered_at: self.registered_at,
        }
    }
}

impl Clone for ArtefactMetadata {
    fn clone(&self) -> (r: ArtefactMetadata)
        ensures
            r@ == self@,
    {
        ArtefactMetadata {
            aid: self.aid,
            owner: self.owner,
            evidence: self.evidence.clone(),
            registered_at: self.registered_at,
        }
    }
}

} // verus!
