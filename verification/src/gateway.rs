//! What the HTTP gateway computes: the queue of pending transactions and
//! the transaction that a registration request stands for.

use crate::consensus::proposer::{TxPool, TxSeq};
use crate::text;
use crate::text::hex_decode;
use crate::types::tx::{Transaction, TransactionView, TxRegisterModel, TxRegisterModelView};
use crate::types::{
    AccountId, Aid, EvidenceHash, EvidenceRef, EvidenceRefView, Hash256, Signature, WmProfile,
};
use std::collections::VecDeque;
use vstd::prelude::*;

verus! {

/// A pool of pending transactions: first in, first out.
pub struct QueuedTxPool {
    queue: VecDeque<Transaction>,
}

impl QueuedTxPool {
    /// The transactions that wait, oldest first.
    pub closed spec fn pending(&self) -> Seq<Transaction> {
        self.queue@
    }

    /// An empty pool.
    pub fn new() -> (p: QueuedTxPool)
        ensures
            p.pending() == Seq::<Transaction>::empty(),
    {
        QueuedTxPool { queue: VecDeque::new() }
    }

    /// Puts `tx` at the end of the queue.
    pub fn push(&mut self, tx: Transaction)
        ensures
            final(self).pending() == old(self).pending().push(tx),
    {
        self.queue.push_back(tx);
    }

    /// Takes the oldest transactions out of the pool: `max_txs` of them, or
    /// all where fewer wait, in the order they came.
    pub fn take_batch(&mut self, max_txs: usize) -> (txs: Vec<Transaction>)
        ensures
            txs@.len() == (if max_txs <= old(self).pending().len() {
                max_txs as int
            } else {
                old(self).pending().len() as int
            }),
            txs@ == old(self).pending().take(txs@.len() as int),
            final(self).pending() == old(self).pending().skip(txs@.len() as int),
    {
        let mut txs: Vec<Transaction> = Vec::new();
        let len = self.queue.len();
        let take = if max_txs <= len {
            max_txs
        } else {
            len
        };
        let mut i: usize = 0;
        while i < take
            invariant
                i <= take,
                take <= old(self).pending().len(),
                txs@ == old(self).pending().take(i as int),
                self.pending() == old(self).pending().skip(i as int),
            decreases take - i,
        {
            match self.queue.pop_front() {
                Some(tx) => {
                    txs.push(tx);
                },
                None => {},
            }
            i += 1;
            proof {
                let all = old(self).pending();
                assert(txs@ =~= all.take(i as int));
                assert(self.pending() =~= all.skip(i as int));
            }
        }
        txs
    }
}

impl Default for QueuedTxPool {
    fn default() -> (p: QueuedTxPool)
        ensures
            p.pending() == Seq::<Transaction>::empty(),
    {
        QueuedTxPool::new()
    }
}

impl TxPool for QueuedTxPool {
    /// The pool hands over its oldest `max_txs` transactions, or all where
    /// fewer wait; the size in bytes is not looked at.
    open spec fn hands_over(&self, max_txs: usize, max_bytes: usize, txs: TxSeq) -> bool {
        txs == self.pending().take(
            if max_txs <= self.pending().len() {
                max_txs as int
            } else {
                self.pending().len() as int
            },
        )
    }

    fn select_for_block(&mut self, max_txs: usize, _max_bytes: usize) -> (txs: Vec<Transaction>)
        ensures
            final(self).pending() == old(self).pending().skip(txs@.len() as int),
    {
        self.take_batch(max_txs)
    }
}

/// The digest that a hexadecimal text stands for: the text must be
/// hexadecimal, and 32 bytes long.
pub open spec fn digest_of_hex(s: Seq<char>) -> Result<Hash256, Seq<char>> {
    if !text::is_hex(s) {
        Err("invalid hex encoding"@)
    } else if s.len() != 64 {
        Err("expected 32-byte hash"@)
    } else {
        Ok(crate::codec::digest_from_bytes(text::unhex(s)))
    }
}

/// Reads a digest out of a hexadecimal text of 64 digits.
pub fn hex_to_hash256(hex_str: &str) -> (r: Result<Hash256, &'static str>)
    ensures
        match r {
            Ok(h) => digest_of_hex(hex_str@) == Ok::<Hash256, Seq<char>>(h) && h@ == text::unhex(
                hex_str@,
            ),
            Err(m) => digest_of_hex(hex_str@) == Err::<Hash256, Seq<char>>(m@),
        },
{
    let raw = match hex_decode(hex_str) {
        None => {
            return Err("invalid hex encoding");
        },
        Some(raw) => raw,
    };
    if raw.len() != 32 {
        return Err("expected 32-byte hash");
    }
    match crate::codec::take_digest(raw.as_slice(), 0) {
        Some((h, _)) => {
            assert(raw@.subrange(0, 32) =~= raw@);
            Ok(h)
        },
        None => Err("expected 32-byte hash"),
    }
}

/// What a [`RegisterModelRequest`] holds, as plain values.
pub ghost struct RegisterModelRequestView {
    pub owner_account_hex: Seq<char>,
    pub aid_hex: Seq<char>,
    pub scheme_id: Seq<char>,
    pub evidence_hash_hex: Seq<char>,
    pub wm_profile: WmProfile,
}

/// A request to register a model.
#[derive(Debug)]
pub struct RegisterModelRequest {
    /// The owner's account, in hexadecimal.
    pub owner_account_hex: String,
    /// The artefact identifier, in hexadecimal.
    pub aid_hex: String,
    /// The tag of the watermarking scheme.
    pub scheme_id: String,
    /// The evidence hash, in hexadecimal.
    pub evidence_hash_hex: String,
    /// The profile of the scheme.
    pub wm_profile: WmProfile,
}

impl View for RegisterModelRequest {
    type V = RegisterModelRequestView;

    open spec fn view(&self) -> RegisterModelRequestView {
        RegisterModelRequestView {
            owner_account_hex: self.owner_account_hex@,
            aid_hex: self.aid_hex@,
            scheme_id: self.scheme_id@,
            evidence_hash_hex: self.evidence_hash_hex@,
            wm_profile: self.wm_profile,
        }
    }
}

/// The answer to a registration request that was queued.
#[derive(Debug)]
pub struct RegisterModelResponse {
    pub status: &'static str,
    pub aid: String,
}

/// The answer to a health check.
#[derive(Debug)]
pub struct HealthResponse {
    pub status: &'static str,
}

/// The answer of a gateway that is alive.
pub fn health() -> (r: HealthResponse)
    ensures
        r.status@ == "ok"@,
{
    HealthResponse { status: "ok" }
}

/// The registration that a request stands for: owner, artefact and
/// evidence hash read from their hexadecimal texts, in this order, with no
/// fee, counter 0 and an empty signature; or what is wrong with the first
/// text that cannot be read.
pub open spec fn registration_of(req: RegisterModelRequestView) -> Result<
    TransactionView,
    Seq<char>,
> {
    match digest_of_hex(req.owner_account_hex) {
        Err(m) => Err(m),
        Ok(owner) => match digest_of_hex(req.aid_hex) {
            Err(m) => Err(m),
            Ok(aid) => match digest_of_hex(req.evidence_hash_hex) {
                Err(m) => Err(m),
                Ok(eh) => Ok(
                    TransactionView::RegisterModel(
                        TxRegisterModelView {
                            owner: AccountId(owner),
                            aid: Aid(aid),
                            evidence: EvidenceRefView {
                                scheme_id: req.scheme_id,
                                evidence_hash: EvidenceHash(eh),
                                wm_profile: req.wm_profile,
                            },
                            fee: 0,
                            nonce: 0,
                            signature: Seq::empty(),
                        },
                    ),
                ),
            },
        },
    }
}

/// Builds the registration that `req` stands for.
pub fn register_tx(req: &RegisterModelRequest) -> (r: Result<Transaction, &'static str>)
    ensures
        match r {
            Ok(tx) => registration_of(req@) == Ok::<TransactionView, Seq<char>>(tx@),
            Err(m) => registration_of(req@) == Err::<TransactionView, Seq<char>>(m@),
        },
{
    let owner = match hex_to_hash256(req.owner_account_hex.as_str()) {
        Err(m) => {
            return Err(m);
        },
        Ok(h) => AccountId(h),
    };
    let aid = match hex_to_hash256(req.aid_hex.as_str()) {
        Err(m) => {
            return Err(m);
        },
        Ok(h) => Aid(h),
    };
    let eh = match hex_to_hash256(req.evidence_hash_hex.as_str()) {
        Err(m) => {
            return Err(m);
        },
        Ok(h) => EvidenceHash(h),
    };
    let evidence = EvidenceRef {
        scheme_id: req.scheme_id.clone(),
        evidence_hash: eh,
        wm_profile: req.wm_profile,
    };
    let tx = TxRegisterModel {
        owner,
        aid,
        evidence,
        fee: 0,
        nonce: 0,
        signature: Signature(Vec::new()),
    };
    Ok(Transaction::RegisterModel(tx))
}

/// The answer to a request that was queued: the artefact as the request
/// named it.
pub fn queued_response(req: &RegisterModelRequest) -> (r: RegisterModelResponse)
    ensures
        r.status@ == "queued"@,
        r.aid@ == req.aid_hex@,
{
    RegisterModelResponse { status: "queued", aid: req.aid_hex.clone() }
}

} // verus!
