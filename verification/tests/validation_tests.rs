use chain::types::block::BlockHash;
use chain::types::EvidenceRefView;
use chain::validation::ml::{dedup_pairs, is_auth_failure, judge_answer, AnswerView};
use chain::{
    AccountId, Aid, BaseValidity, Block, BlockValidator, CombinedValidator, ConsensusConfig,
    EvidenceHash, EvidenceRef, Hash256, Header, MlConfig, MlError, MlValidity, MlVerdict,
    MlVerifier, Signature, Transaction, TxRegisterModel, TxTransfer, ValidationError, WmProfile,
    HASH_LEN,
};
use std::sync::atomic::{AtomicUsize, Ordering};

struct DummyVerifier {
    // if true, all checks succeed; if false, all fail
    ok: bool,
}

impl MlVerifier for DummyVerifier {
    // Ghost side of the trait; never run.
    fn may_answer(&self, _aid: Aid, _evidence: EvidenceRefView, _answer: AnswerView) -> bool {
        unreachable!()
    }

    fn verify(&self, _aid: &Aid, _evidence: &EvidenceRef) -> Result<MlVerdict, MlError> {
        Ok(MlVerdict {
            ok: self.ok,
            trigger_acc: None,
            feat_dist: None,
            logit_stat: None,
            latency_ms: None,
        })
    }
}

struct CountingVerifier {
    reject: Option<u8>,
    fail: Option<u8>,
    calls: AtomicUsize,
}

impl CountingVerifier {
    fn new(reject: Option<u8>, fail: Option<u8>) -> Self {
        CountingVerifier { reject, fail, calls: AtomicUsize::new(0) }
    }
}

impl MlVerifier for &CountingVerifier {
    // Ghost side of the trait; never run.
    fn may_answer(&self, _aid: Aid, _evidence: EvidenceRefView, _answer: AnswerView) -> bool {
        unreachable!()
    }

    fn verify(&self, aid: &Aid, _evidence: &EvidenceRef) -> Result<MlVerdict, MlError> {
        self.calls.fetch_add(1, Ordering::SeqCst);
        let first = aid.0.as_bytes()[0];
        if self.fail == Some(first) {
            return Err(MlError::Transport("down \"now\"".to_string()));
        }
        Ok(MlVerdict {
            ok: self.reject != Some(first),
            trigger_acc: None,
            feat_dist: None,
            logit_stat: None,
            latency_ms: Some(1),
        })
    }
}

fn dummy_hash(byte: u8) -> Hash256 {
    Hash256([byte; HASH_LEN])
}

fn dummy_account(byte: u8) -> AccountId {
    AccountId(dummy_hash(byte))
}

fn dummy_wm_profile() -> WmProfile {
    WmProfile {
        tau_input: 0.9f32.to_bits(),
        tau_feat: 0.1f32.to_bits(),
        logit_band_low: 0.02f32.to_bits(),
        logit_band_high: 0.05f32.to_bits(),
    }
}

fn dummy_evidence(byte: u8) -> EvidenceRef {
    EvidenceRef {
        scheme_id: format!("wm-test-{byte}"),
        evidence_hash: EvidenceHash(dummy_hash(byte)),
        wm_profile: dummy_wm_profile(),
    }
}

fn dummy_reg_tx(owner: AccountId, aid: Aid) -> Transaction {
    let tx = TxRegisterModel {
        owner,
        aid,
        evidence: dummy_evidence(3),
        fee: 0,
        nonce: 0,
        signature: Signature(vec![]),
    };
    Transaction::RegisterModel(tx)
}

fn dummy_block_with_txs(txs: Vec<Transaction>) -> Block {
    let header = Header {
        parent: BlockHash(Hash256([0u8; HASH_LEN])),
        height: 0,
        timestamp: 1_700_000_000,
        proposer: dummy_account(1),
        pos_proof: None,
    };

    Block { header, txs }
}

fn dummy_block_with_aids(aids: &[u8]) -> Block {
    let txs = aids
        .iter()
        .map(|b| {
            let tx = TxRegisterModel {
                owner: dummy_account(*b),
                aid: Aid(dummy_hash(*b)),
                evidence: dummy_evidence(*b),
                fee: 0,
                nonce: 0,
                signature: Signature(vec![]),
            };
            Transaction::RegisterModel(tx)
        })
        .collect();
    dummy_block_with_txs(txs)
}

fn transfer(n: u64) -> Transaction {
    Transaction::Transfer(TxTransfer {
        from: dummy_account(1),
        to: dummy_account(2),
        amount: n,
        fee: 0,
        nonce: n,
        signature: Signature(vec![]),
    })
}

fn cfg(max_block_txs: usize, max_block_size_bytes: usize) -> ConsensusConfig {
    ConsensusConfig {
        block_time_secs: 5,
        max_block_txs,
        max_block_size_bytes,
        allow_empty_blocks: true,
    }
}

fn custom_message(r: Result<(), ValidationError>) -> String {
    match r {
        Err(ValidationError::Custom(msg)) => msg,
        other => panic!("unexpected result: {other:?}"),
    }
}

#[test]
fn base_validity_accepts_small_block() {
    let cfg = ConsensusConfig {
        block_time_secs: 5,
        max_block_txs: 10,
        max_block_size_bytes: 1_000_000,
        allow_empty_blocks: true,
    };
    let v = BaseValidity::new(&cfg);

    let txs = vec![dummy_reg_tx(dummy_account(1), Aid(dummy_hash(2)))];
    let block = dummy_block_with_txs(txs);

    assert!(v.validate(&block).is_ok());
}

#[test]
fn base_validity_rejects_too_many_txs() {
    let cfg = ConsensusConfig {
        block_time_secs: 5,
        max_block_txs: 1,
        max_block_size_bytes: 1_000_000,
        allow_empty_blocks: true,
    };
    let v = BaseValidity::new(&cfg);

    let txs = vec![
        dummy_reg_tx(dummy_account(1), Aid(dummy_hash(2))),
        dummy_reg_tx(dummy_account(2), Aid(dummy_hash(3))),
    ];
    let block = dummy_block_with_txs(txs);

    let err = v.validate(&block).unwrap_err();
    match err {
        ValidationError::Custom(msg) => {
            assert!(msg.contains("exceeds max_block_txs"), "unexpected message: {msg}");
            assert_eq!(msg, "block has 2 txs, exceeds max_block_txs=1");
        }
        _ => panic!("unexpected error variant: {err:?}"),
    }
}

#[test]
fn base_validity_rejects_duplicate_aids_in_block() {
    let cfg = ConsensusConfig {
        block_time_secs: 5,
        max_block_txs: 10,
        max_block_size_bytes: 1_000_000,
        allow_empty_blocks: true,
    };
    let v = BaseValidity::new(&cfg);

    let aid = Aid(dummy_hash(42));
    let txs = vec![dummy_reg_tx(dummy_account(1), aid), dummy_reg_tx(dummy_account(2), aid)];
    let block = dummy_block_with_txs(txs);

    let err = v.validate(&block).unwrap_err();
    match err {
        ValidationError::Custom(msg) => {
            assert!(msg.contains("duplicate Aid"), "unexpected message: {msg}");
            assert_eq!(msg, "duplicate Aid in TxRegisterModel within the same block");
        }
        _ => panic!("unexpected error variant: {err:?}"),
    }
}

#[test]
fn base_validity_rejects_oversized_block() {
    // Force a tiny max size so even a small block exceeds it.
    let cfg = ConsensusConfig {
        block_time_secs: 5,
        max_block_txs: 10,
        max_block_size_bytes: 1, // absurdly small
        allow_empty_blocks: true,
    };
    let v = BaseValidity::new(&cfg);

    let txs = vec![dummy_reg_tx(dummy_account(1), Aid(dummy_hash(2)))];
    let block = dummy_block_with_txs(txs);
    let size = block.canonical_bytes().len();

    let err = v.validate(&block).unwrap_err();
    match err {
        ValidationError::Custom(msg) => {
            assert!(msg.contains("block size"), "unexpected message: {msg}");
            assert_eq!(msg, format!("block size {size} bytes exceeds max_block_size_bytes=1"));
        }
        _ => panic!("unexpected error variant: {err:?}"),
    }
}

#[test]
fn empty_block_passes_base_validation_with_zero_txs_allowed() {
    let block = dummy_block_with_txs(Vec::new());
    assert!(BaseValidity::new(&cfg(0, 1_000_000)).validate(&block).is_ok());
    assert!(BaseValidity::new(&cfg(10, 72)).validate(&block).is_ok());
}

#[test]
fn tx_count_limit_is_inclusive() {
    let v = BaseValidity::new(&cfg(3, 1_000_000));
    let full = dummy_block_with_txs(vec![transfer(1), transfer(2), transfer(3)]);
    assert!(v.validate(&full).is_ok());
    assert!(v.check_tx_count(&full).is_ok());
    let over = dummy_block_with_txs(vec![transfer(1), transfer(2), transfer(3), transfer(4)]);
    assert_eq!(custom_message(v.validate(&over)), "block has 4 txs, exceeds max_block_txs=3");
    assert_eq!(
        custom_message(BaseValidity::new(&cfg(10_000, 1)).check_tx_count(&dummy_block_with_txs(
            (0..10_001).map(transfer).collect()
        ))),
        "block has 10001 txs, exceeds max_block_txs=10000"
    );
}

#[test]
fn size_limit_is_inclusive() {
    let block = dummy_block_with_txs(vec![transfer(1)]);
    let size = block.canonical_bytes().len();
    assert!(BaseValidity::new(&cfg(10, size)).validate(&block).is_ok());
    assert!(BaseValidity::new(&cfg(10, size)).check_block_size(&block).is_ok());
    assert_eq!(
        custom_message(BaseValidity::new(&cfg(10, size - 1)).validate(&block)),
        format!("block size {} bytes exceeds max_block_size_bytes={}", size, size - 1)
    );
}

#[test]
fn count_is_checked_before_size_and_size_before_duplicates() {
    let aid = Aid(dummy_hash(42));
    let block = dummy_block_with_txs(vec![
        dummy_reg_tx(dummy_account(1), aid),
        dummy_reg_tx(dummy_account(2), aid),
    ]);
    let msg = custom_message(BaseValidity::new(&cfg(1, 1)).validate(&block));
    assert!(msg.contains("exceeds max_block_txs"));
    let msg = custom_message(BaseValidity::new(&cfg(2, 1)).validate(&block));
    assert!(msg.contains("block size"));
    let msg = custom_message(BaseValidity::new(&cfg(2, 1_000_000)).check_duplicate_aids(&block));
    assert!(msg.contains("duplicate Aid"));
}

#[test]
fn same_aid_in_other_transactions_is_no_duplicate() {
    let v = BaseValidity::new(&cfg(10, 1_000_000));
    let block = dummy_block_with_txs(vec![
        dummy_reg_tx(dummy_account(1), Aid(dummy_hash(1))),
        transfer(1),
        dummy_reg_tx(dummy_account(1), Aid(dummy_hash(2))),
        dummy_reg_tx(dummy_account(1), Aid(dummy_hash(3))),
    ]);
    assert!(v.validate(&block).is_ok());
    let mut txs = block.txs.clone();
    txs.push(dummy_reg_tx(dummy_account(9), Aid(dummy_hash(1))));
    assert!(v.validate(&dummy_block_with_txs(txs)).is_err());
}

#[test]
fn ml_validity_accepts_when_verifier_ok() {
    let cfg = MlConfig::default();
    let verifier = DummyVerifier { ok: true };
    let v = MlValidity::new(verifier, cfg);

    let block = dummy_block_with_aids(&[1, 2, 3]);
    assert!(v.validate(&block).is_ok());
}

#[test]
fn ml_validity_rejects_when_verifier_fails() {
    let cfg = MlConfig::default();
    let verifier = DummyVerifier { ok: false };
    let v = MlValidity::new(verifier, cfg);

    let block = dummy_block_with_aids(&[1, 2, 3]);
    let err = v.validate(&block).unwrap_err();
    match err {
        ValidationError::Custom(msg) => {
            assert!(msg.contains("ML authenticity check failed"), "unexpected message: {msg}");
            assert_eq!(msg, "ML authenticity check failed for artefact");
        }
        _ => panic!("unexpected error variant: {err:?}"),
    }
}

#[test]
fn ml_validity_enforces_max_artefacts_per_block() {
    let cfg = MlConfig { max_artefacts_per_block: 1 };
    let verifier = DummyVerifier { ok: true };
    let v = MlValidity::new(verifier, cfg);

    let block = dummy_block_with_aids(&[1, 2]); // 2 distinct aids
    let err = v.validate(&block).unwrap_err();
    match err {
        ValidationError::Custom(msg) => {
            assert!(
                msg.contains("exceeds max_artefacts_per_block"),
                "unexpected message: {msg}"
            );
            assert_eq!(
                msg,
                "block references 2 distinct ML artefacts, exceeds max_artefacts_per_block=1"
            );
        }
        _ => panic!("unexpected error variant: {err:?}"),
    }
}

#[test]
fn ml_validity_deduplicates_same_aid_and_evidence() {
    // max_artefacts_per_block == 1, but we include the same aid twice.
    let cfg = MlConfig { max_artefacts_per_block: 1 };
    let verifier = DummyVerifier { ok: true };
    let v = MlValidity::new(verifier, cfg);

    let header = Header {
        parent: BlockHash(Hash256([0u8; HASH_LEN])),
        height: 0,
        timestamp: 1_700_000_000,
        proposer: dummy_account(1),
        pos_proof: None,
    };

    let aid = Aid(dummy_hash(9));
    let evidence = dummy_evidence(9);

    let tx1 = TxRegisterModel {
        owner: dummy_account(1),
        aid,
        evidence: EvidenceRef {
            scheme_id: evidence.scheme_id.clone(),
            evidence_hash: evidence.evidence_hash,
            wm_profile: dummy_wm_profile(),
        },
        fee: 0,
        nonce: 0,
        signature: Signature(vec![]),
    };

    let tx2 = TxRegisterModel {
        owner: dummy_account(2),
        aid,
        evidence,
        fee: 0,
        nonce: 1,
        signature: Signature(vec![]),
    };

    let block = Block {
        header,
        txs: vec![Transaction::RegisterModel(tx1), Transaction::RegisterModel(tx2)],
    };

    // Should be accepted because we deduplicate (aid, evidence_hash).
    assert!(v.validate(&block).is_ok());
}

#[test]
fn verifier_is_asked_once_for_each_distinct_pair() {
    let counting = CountingVerifier::new(None, None);
    let v = MlValidity::new(&counting, MlConfig::default());
    let block = dummy_block_with_aids(&[1, 2, 1, 3, 2, 1]);
    assert!(v.validate(&block).is_ok());
    assert_eq!(counting.calls.load(Ordering::SeqCst), 3);

    let plan = v.plan(&block).expect("under the cap");
    let aids: Vec<u8> = plan.iter().map(|p| p.0 .0.as_bytes()[0]).collect();
    assert_eq!(aids, vec![1, 2, 3]);
}

#[test]
fn same_aid_under_other_evidence_is_asked_again() {
    let counting = CountingVerifier::new(None, None);
    let v = MlValidity::new(&counting, MlConfig::default());
    let mut block = dummy_block_with_aids(&[1]);
    block.txs.push(Transaction::RegisterModel(TxRegisterModel {
        owner: dummy_account(1),
        aid: Aid(dummy_hash(1)),
        evidence: dummy_evidence(2),
        fee: 0,
        nonce: 0,
        signature: Signature(vec![]),
    }));
    assert!(v.validate(&block).is_ok());
    assert_eq!(counting.calls.load(Ordering::SeqCst), 2);
    assert_eq!(dedup_pairs(&block.ml_pairs()).len(), 2);
}

#[test]
fn cap_is_inclusive_and_checked_before_any_question() {
    let counting = CountingVerifier::new(None, None);
    let v = MlValidity::new(&counting, MlConfig { max_artefacts_per_block: 2 });
    assert!(v.validate(&dummy_block_with_aids(&[1, 2])).is_ok());
    assert_eq!(counting.calls.load(Ordering::SeqCst), 2);

    let msg = custom_message(v.validate(&dummy_block_with_aids(&[1, 2, 3])));
    assert_eq!(msg, "block references 3 distinct ML artefacts, exceeds max_artefacts_per_block=2");
    assert_eq!(counting.calls.load(Ordering::SeqCst), 2);
    assert!(v.plan(&dummy_block_with_aids(&[1, 2, 3])).is_err());
}

#[test]
fn cap_of_one_refuses_two_artefacts_without_asking() {
    let counting = CountingVerifier::new(None, None);
    let v = MlValidity::new(&counting, MlConfig { max_artefacts_per_block: 1 });
    let msg = custom_message(v.validate(&dummy_block_with_aids(&[1, 2])));
    assert!(msg.contains("exceeds max_artefacts_per_block"));
    assert_eq!(counting.calls.load(Ordering::SeqCst), 0);
}

#[test]
fn first_negative_verdict_stops_the_questions() {
    let counting = CountingVerifier::new(Some(2), None);
    let v = MlValidity::new(&counting, MlConfig::default());
    let r = v.validate(&dummy_block_with_aids(&[1, 2, 3]));
    assert_eq!(custom_message(r), "ML authenticity check failed for artefact");
    assert_eq!(counting.calls.load(Ordering::SeqCst), 2);
}

#[test]
fn verifier_error_fails_validation_with_the_error_inside() {
    let counting = CountingVerifier::new(None, Some(1));
    let v = MlValidity::new(&counting, MlConfig::default());
    let r = v.validate(&dummy_block_with_aids(&[1, 2]));
    assert_eq!(custom_message(r), "ML verifier error: Transport(\"down \\\"now\\\"\")");
    assert_eq!(counting.calls.load(Ordering::SeqCst), 1);
}

#[test]
fn each_answer_is_judged() {
    let verdict = |ok| MlVerdict {
        ok,
        trigger_acc: Some(0.96f32.to_bits()),
        feat_dist: None,
        logit_stat: None,
        latency_ms: Some(142),
    };
    assert!(judge_answer(Ok(verdict(true))).is_ok());
    assert_eq!(
        custom_message(judge_answer(Ok(verdict(false)))),
        "ML authenticity check failed for artefact"
    );
    assert_eq!(
        custom_message(judge_answer(Err(MlError::Transport("t".to_string())))),
        format!("ML verifier error: {:?}", MlError::Transport("t".to_string()))
    );
    assert_eq!(
        custom_message(judge_answer(Err(MlError::Protocol("a\nb".to_string())))),
        format!("ML verifier error: {:?}", MlError::Protocol("a\nb".to_string()))
    );
    assert_eq!(
        custom_message(judge_answer(Err(MlError::Service("503".to_string())))),
        "ML verifier error: Service(\"503\")"
    );
}

#[test]
fn only_the_negative_verdict_counts_as_authenticity_failure() {
    assert!(is_auth_failure(&ValidationError::Custom(
        "ML authenticity check failed for artefact".to_string()
    )));
    assert!(!is_auth_failure(&ValidationError::Custom("ML verifier error: x".to_string())));
    assert!(!is_auth_failure(&ValidationError::Invalid(
        "ML authenticity check failed for artefact"
    )));
}

#[test]
fn composed_validator_is_deterministic_and_fails_fast() {
    let counting = CountingVerifier::new(Some(3), None);
    let v = CombinedValidator::new(
        BaseValidity::new(&cfg(10, 1_000_000)),
        MlValidity::new(&counting, MlConfig::default()),
    );
    let block = dummy_block_with_aids(&[1, 2, 3]);
    let first = custom_message(v.validate(&block));
    let second = custom_message(v.validate(&block));
    assert_eq!(first, second);
    assert_eq!(first, "ML authenticity check failed for artefact");

    let before = counting.calls.load(Ordering::SeqCst);
    let twice = dummy_block_with_aids(&[1, 1]);
    let mut dup = twice.clone();
    if let Transaction::RegisterModel(t) = &mut dup.txs[1] {
        t.evidence = dummy_evidence(7);
    }
    assert!(custom_message(v.validate(&dup)).contains("duplicate Aid"));
    assert_eq!(counting.calls.load(Ordering::SeqCst), before);

    let good = dummy_block_with_aids(&[1, 2]);
    assert!(v.validate(&good).is_ok());
    assert!(v.validate(&good).is_ok());
}

#[test]
fn validation_errors_in_words() {
    assert_eq!(ValidationError::Invalid("bad").to_text(), "invalid block: bad");
    assert_eq!(ValidationError::Custom("worse".to_string()).to_text(), "invalid block: worse");
    assert_eq!(MlConfig::default().max_artefacts_per_block, 1024);
}
