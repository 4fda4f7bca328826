//! The validity predicates of the chain: structural checks, and the
//! authenticity checks that ask a verifier.

pub mod base;
pub mod ml;
