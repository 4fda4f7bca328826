//! The limits that consensus works under.

use vstd::prelude::*;

verus! {

/// Consensus parameters: the target block time and the limits on a block.
#[derive(Clone, Copy, Debug)]
pub struct ConsensusConfig {
    /// Target block time in seconds; advice to the host.
    pub block_time_secs: u64,
    /// Most transactions a block may hold.
    pub max_block_txs: usize,
    /// Most bytes a block's canonical encoding may take.
    pub max_block_size_bytes: usize,
    /// Whether a block without transactions may be proposed.
    pub allow_empty_blocks: bool,
}

impl Default for ConsensusConfig {
    fn default() -> (cfg: ConsensusConfig)
        ensures
            cfg.block_time_secs == 5,
            cfg.max_block_txs == 10_000,
            cfg.max_block_size_bytes == 1_000_000,
            cfg.allow_empty_blocks,
    {
        ConsensusConfig {
            block_time_secs: 5,
            max_block_txs: 10_000,
            max_block_size_bytes: 1_000_000,
            allow_empty_blocks: true,
        }
    }
}

} // verus!
