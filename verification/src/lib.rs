//! Core of a single-node chain whose blocks must pass machine-learning
//! authenticity checks before they are accepted.
//!
//! - `types`: digests, identifiers, transactions and blocks;
//! - `codec`: the canonical byte format that blocks are hashed and stored in;
//! - `consensus`: the engine, with its store, validator, fork-choice and
//!   proposer interfaces;
//! - `validation`: the structural and the authenticity validator;
//! - `storage`: the store in memory, and the layout of the persistent one;
//! - `ml_client`: what goes to a verifier over HTTP and what comes back;
//! - `gateway`: the queue of pending transactions and registration requests;
//! - `config`, `text`: configuration, and the texts of messages.

use vstd::prelude::*;

pub mod codec;
pub mod config;
pub mod consensus;
pub mod gateway;
pub mod ml_client;
pub mod storage;
pub mod text;
pub mod types;
pub mod validation;

pub use config::MlClientConfig;
pub use consensus::config::ConsensusConfig;
pub use consensus::engine::ConsensusEngine;
pub use consensus::error::{ConsensusError, ValidationError};
pub use consensus::fork_choice::{ForkChoice, LongestChainForkChoice};
pub use consensus::proposer::{Proposer, TxPool};
pub use consensus::store::BlockStore;
pub use consensus::validator::{AcceptAllValidator, BlockValidator, CombinedValidator};
pub use gateway::{HealthResponse, QueuedTxPool, RegisterModelRequest, RegisterModelResponse};
pub use storage::mem::InMemoryBlockStore;
pub use storage::rocksdb::{RocksDbConfig, StorageError};
pub use types::artefact::ArtefactMetadata;
pub use types::block::{Block, BlockHash, Header};
pub use types::tx::{ModelUseMetadata, Transaction, TxRegisterModel, TxTransfer, TxUseModel};
pub use types::{
    AccountId, Aid, EvidenceHash, EvidenceRef, Hash256, PublicKey, Signature, WmProfile, HASH_LEN,
};
pub use validation::base::BaseValidity;
pub use validation::ml::{MlConfig, MlError, MlValidity, MlVerdict, MlVerifier};

verus! {

/// The fork-choice rule of a usual node.
pub type DefaultForkChoice = LongestChainForkChoice;

} // verus!
