use chain::consensus::proposer::TxSeq;
use chain::consensus::store::BlockMap;
use chain::types::block::BlockHash;
use chain::types::EvidenceRefView;
use chain::validation::ml::AnswerView;
use chain::{
    AcceptAllValidator, AccountId, Aid, BaseValidity, Block, BlockStore, BlockValidator,
    CombinedValidator, ConsensusConfig, ConsensusEngine, ConsensusError, EvidenceHash,
    EvidenceRef, ForkChoice, Hash256, Header, InMemoryBlockStore, LongestChainForkChoice, MlConfig,
    MlError, MlValidity, MlVerdict, MlVerifier, Proposer, QueuedTxPool, Signature, StorageError,
    Transaction, TxPool, TxRegisterModel, ValidationError, WmProfile, HASH_LEN,
};
use std::sync::atomic::{AtomicUsize, Ordering};

fn dummy_hash(byte: u8) -> Hash256 {
    Hash256([byte; HASH_LEN])
}

fn dummy_account(byte: u8) -> AccountId {
    AccountId(dummy_hash(byte))
}

fn dummy_wm_profile() -> WmProfile {
    WmProfile {
        tau_input: 0.9f32.to_bits(),
        tau_feat: 0.1f32.to_bits(),
        logit_band_low: 0.02f32.to_bits(),
        logit_band_high: 0.05f32.to_bits(),
    }
}

/// Minimal TxPool implementation for tests.
struct TestTxPool {
    txs: Vec<Transaction>,
}

impl TestTxPool {
    fn new(txs: Vec<Transaction>) -> Self {
        Self { txs }
    }
}

impl TxPool for TestTxPool {
    // Ghost side of the trait; never run.
    fn hands_over(&self, _max_txs: usize, _max_bytes: usize, _txs: TxSeq) -> bool {
        unreachable!()
    }

    fn select_for_block(&mut self, max_txs: usize, _max_bytes: usize) -> Vec<Transaction> {
        let take = max_txs.min(self.txs.len());
        self.txs.drain(0..take).collect()
    }
}

struct FixedVerifier {
    ok: bool,
    calls: AtomicUsize,
}

impl MlVerifier for &FixedVerifier {
    // Ghost side of the trait; never run.
    fn may_answer(&self, _aid: Aid, _evidence: EvidenceRefView, _answer: AnswerView) -> bool {
        unreachable!()
    }

    fn verify(&self, _aid: &Aid, _evidence: &EvidenceRef) -> Result<MlVerdict, MlError> {
        self.calls.fetch_add(1, Ordering::SeqCst);
        Ok(MlVerdict {
            ok: self.ok,
            trigger_acc: None,
            feat_dist: None,
            logit_stat: None,
            latency_ms: None,
        })
    }
}

/// A store whose writes can be made to fail.
struct FlakyStore {
    inner: InMemoryBlockStore,
    fail_put: bool,
    fail_tip: bool,
}

impl BlockStore for FlakyStore {
    // Ghost side of the trait, three functions; never run.
    fn blocks(&self) -> BlockMap {
        unreachable!()
    }

    fn current_tip(&self) -> Option<BlockHash> {
        unreachable!()
    }

    fn reliable(&self) -> bool {
        unreachable!()
    }

    fn get_block(&self, hash: &BlockHash) -> Option<Block> {
        self.inner.get_block(hash)
    }

    fn put_block(&mut self, block: Block) -> Result<(), StorageError> {
        if self.fail_put {
            return Err(StorageError::RocksDb("disk full".to_string()));
        }
        self.inner.put_block(block)
    }

    fn tip(&self) -> Option<BlockHash> {
        self.inner.tip()
    }

    fn set_tip(&mut self, hash: BlockHash) -> Result<(), StorageError> {
        if self.fail_tip {
            return Err(StorageError::MissingColumnFamily("meta"));
        }
        self.inner.set_tip(hash)
    }
}

/// Build a minimal RegisterModel tx just to get something in the block.
fn dummy_register_tx(owner_byte: u8, aid_byte: u8) -> Transaction {
    let owner = dummy_account(owner_byte);
    let aid = Aid(dummy_hash(aid_byte));

    let wm_profile = dummy_wm_profile();
    let evidence_ref = EvidenceRef {
        scheme_id: "wm-test".to_string(),
        evidence_hash: EvidenceHash(dummy_hash(3)),
        wm_profile,
    };

    let tx_reg = TxRegisterModel {
        owner,
        aid,
        evidence: evidence_ref,
        fee: 0,
        nonce: 0,
        signature: Signature(vec![]),
    };

    Transaction::RegisterModel(tx_reg)
}

fn test_cfg() -> ConsensusConfig {
    ConsensusConfig {
        block_time_secs: 5,
        max_block_txs: 100,
        max_block_size_bytes: 1_000_000,
        allow_empty_blocks: true,
    }
}

fn block_at(height: u64, timestamp: u64, txs: Vec<Transaction>) -> Block {
    Block {
        header: Header {
            parent: BlockHash(Hash256([0u8; HASH_LEN])),
            height,
            timestamp,
            proposer: dummy_account(1),
            pos_proof: None,
        },
        txs,
    }
}

#[test]
fn propose_and_import_block_updates_tip() {
    let cfg = ConsensusConfig {
        block_time_secs: 5,
        max_block_txs: 100,
        max_block_size_bytes: 1_000_000,
        allow_empty_blocks: true,
    };
    let store = InMemoryBlockStore::new();
    let validator = AcceptAllValidator;
    let fork_choice = LongestChainForkChoice::default();

    let mut engine = ConsensusEngine::new(cfg, store, validator, fork_choice);

    let proposer_id = dummy_account(1);
    let txs = vec![dummy_register_tx(1, 2)];
    let mut tx_pool = TestTxPool::new(txs);

    let (hash, block) = engine
        .propose_block(proposer_id, &mut tx_pool, 1_700_000_000)
        .expect("proposal should succeed");

    assert_eq!(block.header.height, 0);

    let tip = engine.tip().expect("tip should be set");
    assert_eq!(tip.0.as_bytes(), hash.0.as_bytes());
}

#[test]
fn longest_chain_fork_choice_prefers_higher_height() {
    let cfg = ConsensusConfig {
        block_time_secs: 5,
        max_block_txs: 100,
        max_block_size_bytes: 1_000_000,
        allow_empty_blocks: true,
    };
    let store = InMemoryBlockStore::new();
    let validator = AcceptAllValidator;
    let fork_choice = LongestChainForkChoice::default();

    let mut engine = ConsensusEngine::new(cfg, store, validator, fork_choice);

    let proposer_id = dummy_account(1);

    // First block via propose_block.
    let mut tx_pool = TestTxPool::new(vec![dummy_register_tx(1, 2)]);
    let (h0, _) =
        engine.propose_block(proposer_id, &mut tx_pool, 1_700_000_000).expect("b0 valid");

    // Competing block at height 0 built manually (not via proposer).
    let alt_block = {
        let header = Header {
            parent: BlockHash(Hash256([0u8; HASH_LEN])),
            height: 0,
            timestamp: 1_700_000_001,
            proposer: proposer_id,
            pos_proof: None,
        };
        Block { header, txs: vec![dummy_register_tx(3, 4)] }
    };
    let alt_hash = alt_block.compute_hash();
    engine.import_block(alt_block).expect("alternate block should also be valid");

    // Tip should still point to the original height-0 block (ties stay).
    let tip1 = engine.tip().unwrap();
    assert_eq!(tip1.0.as_bytes(), h0.0.as_bytes());

    // Now propose a new block on top of the current tip (height 1).
    let mut tx_pool2 = TestTxPool::new(vec![dummy_register_tx(5, 6)]);
    let (h1, _) =
        engine.propose_block(proposer_id, &mut tx_pool2, 1_700_000_010).expect("b1 valid");

    let tip2 = engine.tip().unwrap();
    assert_eq!(tip2.0.as_bytes(), h1.0.as_bytes());
    assert_ne!(tip2.0.as_bytes(), alt_hash.0.as_bytes());
}

#[test]
fn proposer_from_config_copies_limits() {
    let cfg = ConsensusConfig {
        block_time_secs: 7,
        max_block_txs: 1234,
        max_block_size_bytes: 512_000,
        allow_empty_blocks: false,
    };

    let p = Proposer::from_config(&cfg);

    assert_eq!(p.max_block_txs, cfg.max_block_txs);
    assert_eq!(p.max_block_size_bytes, cfg.max_block_size_bytes);
    assert_eq!(p.allow_empty_blocks, cfg.allow_empty_blocks);
}

#[test]
fn proposer_trait_bounds() {
    fn assert_bounds<T: Clone + core::fmt::Debug>() {}
    assert_bounds::<Proposer>();
}

#[test]
fn build_block_signature_is_stable() {
    // This never runs; it's just a compile-time check that the
    // generics and return type of `build_block` stay as expected.
    fn _assert<S, P>(store: &S, tx_pool: &mut P, proposer: &Proposer, id: AccountId, ts: u64)
    where
        S: BlockStore,
        P: TxPool,
    {
        let _block: Block = proposer.build_block(store, id, tx_pool, ts);
    }
}

#[test]
fn first_block_bootstraps_tip() {
    let mut engine = ConsensusEngine::new(
        test_cfg(),
        InMemoryBlockStore::new(),
        AcceptAllValidator,
        LongestChainForkChoice,
    );
    let proposer_id = AccountId(Hash256::compute(b"p"));
    let mut pool = QueuedTxPool::new();
    let (hash, block) =
        engine.propose_block(proposer_id, &mut pool, 1_700_000_000).expect("first block");
    assert_eq!(block.header.height, 0);
    assert_eq!(block.header.parent, BlockHash(Hash256([0u8; 32])));
    assert_eq!(block.header.timestamp, 1_700_000_000);
    assert_eq!(block.header.proposer, proposer_id);
    assert_eq!(block.header.pos_proof, None);
    assert!(block.txs.is_empty());
    assert_eq!(engine.tip(), Some(block.compute_hash()));
    assert_eq!(hash, block.compute_hash());
    assert_eq!(engine.tip_block().expect("tip block").header.height, 0);
    assert_eq!(engine.store().len(), 1);
}

#[test]
fn ties_keep_the_incumbent_and_higher_blocks_advance() {
    let mut engine = ConsensusEngine::new(
        test_cfg(),
        InMemoryBlockStore::new(),
        AcceptAllValidator,
        LongestChainForkChoice,
    );
    let proposer_id = AccountId(Hash256::compute(b"p"));
    let mut pool = QueuedTxPool::new();
    let (h0, _) = engine.propose_block(proposer_id, &mut pool, 1_700_000_000).expect("b0");

    let rival = block_at(0, 1_700_000_001, Vec::new());
    let rival_hash = engine.import_block(rival.clone()).expect("rival");
    assert_eq!(rival_hash, rival.compute_hash());
    assert_eq!(engine.tip(), Some(h0));
    assert!(engine.store().get_block(&h0).is_some());
    assert!(engine.store().get_block(&rival_hash).is_some());

    let (h1, b1) = engine.propose_block(proposer_id, &mut pool, 1_700_000_002).expect("b1");
    assert_eq!(b1.header.height, 1);
    assert_eq!(b1.header.parent, h0);
    assert_eq!(engine.tip(), Some(h1));
    assert!(engine.store().get_block(&rival_hash).is_some());
    assert_ne!(engine.tip(), Some(rival_hash));

    let lower = block_at(0, 1_700_000_003, Vec::new());
    engine.import_block(lower).expect("lower");
    assert_eq!(engine.tip(), Some(h1));
    assert_eq!(engine.tip_block().expect("tip block").header.height, 1);
    assert_eq!(engine.store().len(), 4);
}

#[test]
fn duplicate_aid_is_rejected_and_store_unchanged() {
    let verifier = FixedVerifier { ok: true, calls: AtomicUsize::new(0) };
    let validator = CombinedValidator::new(
        BaseValidity::new(&test_cfg()),
        MlValidity::new(&verifier, MlConfig::default()),
    );
    let mut engine =
        ConsensusEngine::new(test_cfg(), InMemoryBlockStore::new(), validator, LongestChainForkChoice);
    let block =
        block_at(0, 1_700_000_000, vec![dummy_register_tx(1, 7), dummy_register_tx(2, 7)]);
    match engine.import_block(block) {
        Err(ConsensusError::Validation(ValidationError::Custom(msg))) => {
            assert!(msg.contains("duplicate Aid"), "unexpected message: {msg}");
        }
        other => panic!("unexpected result: {other:?}"),
    }
    assert!(engine.store().is_empty());
    assert_eq!(engine.tip(), None);
    assert_eq!(engine.blocks_rejected_ml(), 0);
    assert_eq!(verifier.calls.load(Ordering::SeqCst), 0);
}

#[test]
fn negative_verdict_rejects_block_and_counts() {
    let verifier = FixedVerifier { ok: false, calls: AtomicUsize::new(0) };
    let validator = CombinedValidator::new(
        BaseValidity::new(&test_cfg()),
        MlValidity::new(&verifier, MlConfig::default()),
    );
    let mut engine =
        ConsensusEngine::new(test_cfg(), InMemoryBlockStore::new(), validator, LongestChainForkChoice);
    let mut pool = QueuedTxPool::new();
    pool.push(dummy_register_tx(1, 2));
    let err = engine
        .propose_block(dummy_account(1), &mut pool, 1_700_000_000)
        .expect_err("must be refused");
    match &err {
        ConsensusError::Validation(ValidationError::Custom(msg)) => {
            assert!(msg.contains("ML authenticity check failed"), "unexpected message: {msg}");
        }
        other => panic!("unexpected error: {other:?}"),
    }
    assert_eq!(err.to_text(), "invalid block: ML authenticity check failed for artefact");
    assert_eq!(engine.blocks_rejected_ml(), 1);
    assert_eq!(engine.tip(), None);
    assert!(engine.store().is_empty());
    assert_eq!(verifier.calls.load(Ordering::SeqCst), 1);
}

#[test]
fn cap_rejects_before_any_verifier_call() {
    let verifier = FixedVerifier { ok: true, calls: AtomicUsize::new(0) };
    let validator = MlValidity::new(&verifier, MlConfig { max_artefacts_per_block: 1 });
    let block =
        block_at(0, 1_700_000_000, vec![dummy_register_tx(1, 2), dummy_register_tx(1, 3)]);
    match validator.validate(&block) {
        Err(ValidationError::Custom(msg)) => {
            assert!(msg.contains("exceeds max_artefacts_per_block"));
        }
        other => panic!("unexpected result: {other:?}"),
    }
    assert_eq!(verifier.calls.load(Ordering::SeqCst), 0);
}

#[test]
fn failed_put_leaves_store_and_tip_alone() {
    let store = FlakyStore { inner: InMemoryBlockStore::new(), fail_put: true, fail_tip: false };
    let mut engine =
        ConsensusEngine::new(test_cfg(), store, AcceptAllValidator, LongestChainForkChoice);
    let block = block_at(0, 1, Vec::new());
    match engine.import_block(block) {
        Err(ConsensusError::Storage(msg)) => assert_eq!(msg, "disk full"),
        other => panic!("unexpected result: {other:?}"),
    }
    assert_eq!(engine.tip(), None);
    assert!(engine.store().inner.is_empty());
}

#[test]
fn failed_set_tip_keeps_the_stored_block() {
    let store = FlakyStore { inner: InMemoryBlockStore::new(), fail_put: false, fail_tip: true };
    let mut engine =
        ConsensusEngine::new(test_cfg(), store, AcceptAllValidator, LongestChainForkChoice);
    let block = block_at(0, 1, Vec::new());
    let hash = block.compute_hash();
    match engine.import_block(block) {
        Err(ConsensusError::Storage(msg)) => assert_eq!(msg, "missing column family: meta"),
        other => panic!("unexpected result: {other:?}"),
    }
    assert_eq!(engine.tip(), None);
    assert!(engine.store().get_block(&hash).is_some());

    engine.store_mut().fail_tip = false;
    engine.import_block(block_at(0, 2, Vec::new())).expect("import");
    assert!(engine.tip().is_some());
}

#[test]
fn tip_without_block_is_treated_as_no_tip() {
    let mut store = InMemoryBlockStore::new();
    store.set_tip(BlockHash(dummy_hash(9))).expect("set tip");
    let mut engine =
        ConsensusEngine::new(test_cfg(), store, AcceptAllValidator, LongestChainForkChoice);
    assert!(engine.tip().is_some());
    assert!(engine.tip_block().is_none());

    assert_eq!(Proposer::next_parent(engine.store()), (BlockHash(Hash256([0u8; 32])), 0));
    let mut pool = QueuedTxPool::new();
    let (hash, block) = engine.propose_block(dummy_account(1), &mut pool, 5).expect("propose");
    assert_eq!(block.header.height, 0);
    assert_eq!(block.header.parent, BlockHash(Hash256([0u8; 32])));
    assert_eq!(engine.tip(), Some(hash));
    assert!(engine.tip_block().is_some());
}

#[test]
fn fork_choice_compares_heights_strictly() {
    let mut store = InMemoryBlockStore::new();
    let rule = LongestChainForkChoice;
    assert!(rule.should_update_tip(&store, None, &block_at(0, 1, Vec::new())));
    let tip_block = block_at(5, 1, Vec::new());
    let tip = tip_block.compute_hash();
    assert!(rule.should_update_tip(&store, Some(tip), &block_at(0, 1, Vec::new())));
    store.put_block(tip_block).expect("put");
    assert!(!rule.should_update_tip(&store, Some(tip), &block_at(4, 1, Vec::new())));
    assert!(!rule.should_update_tip(&store, Some(tip), &block_at(5, 2, Vec::new())));
    assert!(rule.should_update_tip(&store, Some(tip), &block_at(6, 1, Vec::new())));
}

#[test]
fn height_that_cannot_grow_stays() {
    let mut store = InMemoryBlockStore::new();
    let top = block_at(u64::MAX, 1, Vec::new());
    let hash = top.compute_hash();
    store.put_block(top).expect("put");
    store.set_tip(hash).expect("tip");
    assert_eq!(Proposer::next_parent(&store), (hash, u64::MAX));
}

#[test]
fn proposer_takes_at_most_the_limit_from_the_pool() {
    let cfg = ConsensusConfig { max_block_txs: 2, ..test_cfg() };
    let proposer = Proposer::from_config(&cfg);
    let store = InMemoryBlockStore::new();
    let mut pool = QueuedTxPool::new();
    for i in 0..5u8 {
        pool.push(dummy_register_tx(1, i));
    }
    let block = proposer.build_block(&store, dummy_account(1), &mut pool, 9);
    assert_eq!(block.txs.len(), 2);
    match &block.txs[0] {
        Transaction::RegisterModel(t) => assert_eq!(t.aid, Aid(dummy_hash(0))),
        other => panic!("unexpected transaction: {other:?}"),
    }
    assert_eq!(pool.take_batch(10).len(), 3);
    assert_eq!(pool.take_batch(10).len(), 0);
    assert!(store.is_empty());
}

#[test]
fn default_pool_is_empty() {
    let mut pool = QueuedTxPool::default();
    assert!(pool.select_for_block(10, 10).is_empty());
    pool.push(dummy_register_tx(1, 2));
    assert_eq!(pool.select_for_block(0, 10).len(), 0);
    assert_eq!(pool.select_for_block(1, 0).len(), 1);
}

#[test]
fn consensus_errors_in_words() {
    let e: ConsensusError = ValidationError::Invalid("bad").into();
    assert_eq!(e.to_text(), "invalid block: bad");
    assert_eq!(ConsensusError::Storage("x".to_string()).to_text(), "storage error: x");
    assert_eq!(ConsensusError::Other("y".to_string()).to_text(), "consensus error: y");
    let d = ConsensusConfig::default();
    assert_eq!(
        (d.block_time_secs, d.max_block_txs, d.max_block_size_bytes, d.allow_empty_blocks),
        (5, 10_000, 1_000_000, true)
    );
}
