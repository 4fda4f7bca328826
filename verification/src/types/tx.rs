//! Transactions: registering a model artefact, recording a use of one, and
//! moving value between accounts; and their canonical bytes.

use crate::codec;
use crate::codec::{
    put_bytes, put_digest, put_opt_str, put_profile, put_str, put_u64, take_bytes, take_digest,
    take_opt_str, take_profile, take_str, take_u32, take_u64,
};
use crate::types::{
    AccountId, Aid, EvidenceHash, EvidenceRef, EvidenceRefView, Signature,
};
use vstd::prelude::*;
use vstd::utf8;

verus! {

/// What a [`TxRegisterModel`] holds, as plain values.
pub ghost struct TxRegisterModelView {
    pub owner: AccountId,
    pub aid: Aid,
    pub evidence: EvidenceRefView,
    pub fee: u64,
    pub nonce: u64,
    pub signature: Seq<u8>,
}

/// Registers a new model artefact under an owner, with the evidence by which
/// its authenticity can be checked.
#[derive(Debug)]
pub struct TxRegisterModel {
    /// Account that owns the model.
    pub owner: AccountId,
    /// Identifier of the artefact.
    pub aid: Aid,
    /// Reference to the watermark evidence.
    pub evidence: EvidenceRef,
    /// Fee offered for the registration.
    pub fee: u64,
    /// Anti-replay counter of the owner.
    pub nonce: u64,
    /// The owner's signature, carried uninterpreted.
    pub signature: Signature,
}

impl View for TxRegisterModel {
    type V = TxRegisterModelView;

    open spec fn view(&self) -> TxRegisterModelView {
        TxRegisterModelView {
            owner: self.owner,
            aid: self.aid,
            evidence: self.evidence@,
            fee: self.fee,
            nonce: self.nonce,
            signature: self.signature@,
        }
    }
}

impl Clone for TxRegisterModel {
    fn clone(&self) -> (r: TxRegisterModel)
        ensures
            r@ == self@,
    {
        TxRegisterModel {
            owner: self.owner,
            aid: self.aid,
            evidence: self.evidence.clone(),
            fee: self.fee,
            nonce: self.nonce,
            signature: self.signature.clone(),
        }
    }
}

/// What a [`ModelUseMetadata`] holds, as plain values.
pub ghost struct ModelUseMetadataView {
    pub task: Seq<char>,
    pub version: Option<Seq<char>>,
}

/// How a model was used: the task, and optionally a version label.
#[derive(Debug)]
pub struct ModelUseMetadata {
    /// Free-form description of the task.
    pub task: String,
    /// Optional logical version of the use.
    pub version: Option<String>,
}

impl View for ModelUseMetadata {
    type V = ModelUseMetadataView;

    open spec fn view(&self) -> ModelUseMetadataView {
        ModelUseMetadataView {
            task: self.task@,
            version: match self.version {
                Some(v) => Some(v@),
                None => None,
            },
        }
    }
}

impl Clone for ModelUseMetadata {
    fn clone(&self) -> (r: ModelUseMetadata)
        ensures
            r@ == self@,
    {
        ModelUseMetadata {
            task: self.task.clone(),
            version: match &self.version {
                Some(v) => Some(v.clone()),
                None => None,
            },
        }
    }
}

/// What a [`TxUseModel`] holds, as plain values.
pub ghost struct TxUseModelView {
    pub caller: AccountId,
    pub aid: Aid,
    pub metadata: ModelUseMetadataView,
    pub fee: u64,
    pub nonce: u64,
    pub signature: Seq<u8>,
}

/// Records that an account used a registered model.
#[derive(Debug)]
pub struct TxUseModel {
    /// Account using the model.
    pub caller: AccountId,
    /// Identifier of the model used.
    pub aid: Aid,
    /// Task and version of the use.
    pub metadata: ModelUseMetadata,
    /// Fee paid for the record.
    pub fee: u64,
    /// Anti-replay counter of the caller.
    pub nonce: u64,
    /// The caller's signature, carried uninterpreted.
    pub signature: Signature,
}

impl View for TxUseModel {
    type V = TxUseModelView;

    open spec fn view(&self) -> TxUseModelView {
        TxUseModelView {
            caller: self.caller,
            aid: self.aid,
            metadata: self.metadata@,
            fee: self.fee,
            nonce: self.nonce,
            signature: self.signature@,
        }
    }
}

impl Clone for TxUseModel {
    fn clone(&self) -> (r: TxUseModel)
        ensures
            r@ == self@,
    {
        TxUseModel {
            caller: self.caller,
            aid: self.aid,
            metadata: self.metadata.clone(),
            fee: self.fee,
            nonce: self.nonce,
            signature: self.signature.clone(),
        }
    }
}

/// What a [`TxTransfer`] holds, as plain values.
pub ghost struct TxTransferView {
    pub from: AccountId,
    pub to: AccountId,
    pub amount: u64,
    pub fee: u64,
    pub nonce: u64,
    pub signature: Seq<u8>,
}

/// Moves value from one account to another.
#[derive(Debug)]
pub struct TxTransfer {
    /// Account sending the funds.
    pub from: AccountId,
    /// Account receiving the funds.
    pub to: AccountId,
    /// Amount to move.
    pub amount: u64,
    /// Fee paid by the sender.
    pub fee: u64,
    /// Anti-replay counter of the sender.
    pub nonce: u64,
    /// The sender's signature, carried uninterpreted.
    pub signature: Signature,
}

impl View for TxTransfer {
    type V = TxTransferView;

    open spec fn view(&self) -> TxTransferView {
        TxTransferView {
            from: self.from,
            to: self.to,
            amount: self.amount,
            fee: self.fee,
            nonce: self.nonce,
            signature: self.signature@,
        }
    }
}

impl Clone for TxTransfer {
    fn clone(&self) -> (r: TxTransfer)
        ensures
            r@ == self@,
    {
        TxTransfer {
            from: self.from,
            to: self.to,
            amount: self.amount,
            fee: self.fee,
            nonce: self.nonce,
            signature: self.signature.clone(),
        }
    }
}

/// What a [`Transaction`] holds, as plain values.
pub ghost enum TransactionView {
    RegisterModel(TxRegisterModelView),
    UseModel(TxUseModelView),
    Transfer(TxTransferView),
}

/// A transaction, as it stands in a block.
#[derive(Debug)]
pub enum Transaction {
    /// Registers a new model artefact.
    RegisterModel(TxRegisterModel),
    /// Records a use of a registered model.
    UseModel(TxUseModel),
    /// Moves value between accounts.
    Transfer(TxTransfer),
}

impl View for Transaction {
    type V = TransactionView;

    open spec fn view(&self) -> TransactionView {
        match *self {
            Transaction::RegisterModel(t) => TransactionView::RegisterModel(t@),
            Transaction::UseModel(t) => TransactionView::UseModel(t@),
            Transaction::Transfer(t) => TransactionView::Transfer(t@),
        }
    }
}

impl Clone for Transaction {
    fn clone(&self) -> (r: Transaction)
        ensures
            r@ == self@,
    {
        match self {
            Transaction::RegisterModel(t) => Transaction::RegisterModel(t.clone()),
            Transaction::UseModel(t) => Transaction::UseModel(t.clone()),
            Transaction::Transfer(t) => Transaction::Transfer(t.clone()),
        }
    }
}

/// The bytes of a reference to evidence.
pub open spec fn enc_evidence(e: EvidenceRefView) -> Seq<u8> {
    codec::enc_str(e.scheme_id) + e.evidence_hash.0@ + codec::enc_profile(e.wm_profile)
}

/// The bytes of a registration.
pub open spec fn enc_register(t: TxRegisterModelView) -> Seq<u8> {
    t.owner.0@ + t.aid.0@ + enc_evidence(t.evidence) + codec::enc_u64(t.fee) + codec::enc_u64(
        t.nonce,
    ) + codec::enc_bytes(t.signature)
}

/// The bytes of a use's metadata.
pub open spec fn enc_metadata(m: ModelUseMetadataView) -> Seq<u8> {
    codec::enc_str(m.task) + codec::enc_opt_str(m.version)
}

/// The bytes of a use record.
pub open spec fn enc_use(t: TxUseModelView) -> Seq<u8> {
    t.caller.0@ + t.aid.0@ + enc_metadata(t.metadata) + codec::enc_u64(t.fee) + codec::enc_u64(
        t.nonce,
    ) + codec::enc_bytes(t.signature)
}

/// The bytes of a transfer.
pub open spec fn enc_transfer(t: TxTransferView) -> Seq<u8> {
    t.from.0@ + t.to.0@ + codec::enc_u64(t.amount) + codec::enc_u64(t.fee) + codec::enc_u64(
        t.nonce,
    ) + codec::enc_bytes(t.signature)
}

/// The canonical bytes of a transaction: the number of its variant (0, 1 or
/// 2), then the variant's fields in order.
pub open spec fn enc_tx(tx: TransactionView) -> Seq<u8> {
    match tx {
        TransactionView::RegisterModel(t) => seq![0u8] + enc_register(t),
        TransactionView::UseModel(t) => seq![1u8] + enc_use(t),
        TransactionView::Transfer(t) => seq![2u8] + enc_transfer(t),
    }
}

/// The reference to evidence that starts at `pos`, and the position after it.
pub open spec fn parse_evidence_at(s: Seq<u8>, pos: int) -> Option<(EvidenceRefView, int)> {
    match codec::parse_str_at(s, pos) {
        Some((scheme_id, p1)) => match codec::parse_digest_at(s, p1) {
            Some((h, p2)) => match codec::parse_profile_at(s, p2) {
                Some((wm_profile, p3)) => Some(
                    (EvidenceRefView { scheme_id, evidence_hash: EvidenceHash(h), wm_profile }, p3),
                ),
                None => None,
            },
            None => None,
        },
        None => None,
    }
}

/// The fee, the counter and the signature that close every transaction,
/// from `pos` on, and the position after them.
pub open spec fn parse_tail_at(s: Seq<u8>, pos: int) -> Option<((u64, u64, Seq<u8>), int)> {
    match codec::parse_u64_at(s, pos) {
        Some((fee, p1)) => match codec::parse_u64_at(s, p1) {
            Some((nonce, p2)) => match codec::parse_bytes_at(s, p2) {
                Some((signature, p3)) => Some(((fee, nonce, signature), p3)),
                None => None,
            },
            None => None,
        },
        None => None,
    }
}

/// The registration that starts at `pos`, and the position after it.
pub open spec fn parse_register_at(s: Seq<u8>, pos: int) -> Option<(TxRegisterModelView, int)> {
    match codec::parse_digest_at(s, pos) {
        Some((owner, p1)) => match codec::parse_digest_at(s, p1) {
            Some((aid, p2)) => match parse_evidence_at(s, p2) {
                Some((evidence, p3)) => match parse_tail_at(s, p3) {
                    Some(((fee, nonce, signature), p4)) => Some(
                        (
                            TxRegisterModelView {
                                owner: AccountId(owner),
                                aid: Aid(aid),
                                evidence,
                                fee,
                                nonce,
                                signature,
                            },
                            p4,
                        ),
                    ),
                    None => None,
                },
                None => None,
            },
            None => None,
        },
        None => None,
    }
}

/// The metadata that starts at `pos`, and the position after it.
pub open spec fn parse_metadata_at(s: Seq<u8>, pos: int) -> Option<(ModelUseMetadataView, int)> {
    match codec::parse_str_at(s, pos) {
        Some((task, p1)) => match codec::parse_opt_str_at(s, p1) {
            Some((version, p2)) => Some((ModelUseMetadataView { task, version }, p2)),
            None => None,
        },
        None => None,
    }
}

/// The use record that starts at `pos`, and the position after it.
pub open spec fn parse_use_at(s: Seq<u8>, pos: int) -> Option<(TxUseModelView, int)> {
    match codec::parse_digest_at(s, pos) {
        Some((caller, p1)) => match codec::parse_digest_at(s, p1) {
            Some((aid, p2)) => match parse_metadata_at(s, p2) {
                Some((metadata, p3)) => match parse_tail_at(s, p3) {
                    Some(((fee, nonce, signature), p4)) => Some(
                        (
                            TxUseModelView {
                                caller: AccountId(caller),
                                aid: Aid(aid),
                                metadata,
                                fee,
                                nonce,
                                signature,
                            },
                            p4,
                        ),
                    ),
                    None => None,
                },
                None => None,
            },
            None => None,
        },
        None => None,
    }
}

/// The transfer that starts at `pos`, and the position after it.
pub open spec fn parse_transfer_at(s: Seq<u8>, pos: int) -> Option<(TxTransferView, int)> {
    match codec::parse_digest_at(s, pos) {
        Some((from, p1)) => match codec::parse_digest_at(s, p1) {
            Some((to, p2)) => match codec::parse_u64_at(s, p2) {
                Some((amount, p3)) => match parse_tail_at(s, p3) {
                    Some(((fee, nonce, signature), p4)) => Some(
                        (
                            TxTransferView {
                                from: AccountId(from),
                                to: AccountId(to),
                                amount,
                                fee,
                                nonce,
                                signature,
                            },
                            p4,
                        ),
                    ),
                    None => None,
                },
                None => None,
            },
            None => None,
        },
        None => None,
    }
}

/// The transaction that starts at `pos`, and the position after it. A
/// variant number other than 0, 1 and 2 is no transaction.
pub open spec fn parse_tx_at(s: Seq<u8>, pos: int) -> Option<(TransactionView, int)> {
    match codec::parse_u32_at(s, pos) {
        Some((tag, p)) => if tag == 0 {
            match parse_register_at(s, p) {
                Some((t, q)) => Some((TransactionView::RegisterModel(t), q)),
                None => None,
            }
        } else if tag == 1 {
            match parse_use_at(s, p) {
                Some((t, q)) => Some((TransactionView::UseModel(t), q)),
                None => None,
            }
        } else if tag == 2 {
            match parse_transfer_at(s, p) {
                Some((t, q)) => Some((TransactionView::Transfer(t), q)),
                None => None,
            }
        } else {
            None
        },
        None => None,
    }
}

impl TransactionView {
    /// Every length in the transaction can be written down in 64 bits.
    pub open spec fn fits(self) -> bool {
        match self {
            TransactionView::RegisterModel(t) => t.evidence.fits() && t.signature.len()
                <= u64::MAX,
            TransactionView::UseModel(t) => {
                &&& utf8::encode_utf8(t.metadata.task).len() <= u64::MAX
                &&& (t.metadata.version matches Some(v) ==> utf8::encode_utf8(v).len() <= u64::MAX)
                &&& t.signature.len() <= u64::MAX
            },
            TransactionView::Transfer(t) => t.signature.len() <= u64::MAX,
        }
    }
}

fn put_evidence(out: &mut Vec<u8>, e: &EvidenceRef)
    ensures
        final(out)@ == old(out)@ + enc_evidence(e@),
        e@.fits(),
{
    put_str(out, e.scheme_id.as_str());
    put_digest(out, e.evidence_hash.as_hash());
    put_profile(out, &e.wm_profile);
    assert(out@ =~= old(out)@ + enc_evidence(e@));
}

fn put_tail(out: &mut Vec<u8>, fee: u64, nonce: u64, signature: &Signature)
    ensures
        final(out)@ == old(out)@ + codec::enc_u64(fee) + codec::enc_u64(nonce) + codec::enc_bytes(
            signature@,
        ),
        signature@.len() <= usize::MAX,
{
    put_u64(out, fee);
    put_u64(out, nonce);
    let raw = signature.as_bytes();
    assert(raw@.len() == raw.len());
    put_bytes(out, raw);
}

impl Transaction {
    /// Appends the transaction's canonical bytes to `out`.
    pub fn encode_into(&self, out: &mut Vec<u8>)
        ensures
            final(out)@ == old(out)@ + enc_tx(self@),
            self@.fits(),
    {
        match self {
            Transaction::RegisterModel(t) => {
                out.push(0u8);
                put_digest(out, t.owner.as_hash());
                put_digest(out, t.aid.as_hash());
                put_evidence(out, &t.evidence);
                put_tail(out, t.fee, t.nonce, &t.signature);
                assert(out@ =~= old(out)@ + (seq![0u8] + enc_register(t@)));
            },
            Transaction::UseModel(t) => {
                out.push(1u8);
                put_digest(out, t.caller.as_hash());
                put_digest(out, t.aid.as_hash());
                put_str(out, t.metadata.task.as_str());
                put_opt_str(out, &t.metadata.version);
                put_tail(out, t.fee, t.nonce, &t.signature);
                assert(out@ =~= old(out)@ + (seq![1u8] + enc_use(t@)));
            },
            Transaction::Transfer(t) => {
                out.push(2u8);
                put_digest(out, t.from.as_hash());
                put_digest(out, t.to.as_hash());
                put_u64(out, t.amount);
                put_tail(out, t.fee, t.nonce, &t.signature);
                assert(out@ =~= old(out)@ + (seq![2u8] + enc_transfer(t@)));
            },
        }
    }

    /// The transaction's canonical bytes.
    pub fn encode(&self) -> (out: Vec<u8>)
        ensures
            out@ == enc_tx(self@),
            self@.fits(),
    {
        let mut out: Vec<u8> = Vec::new();
        self.encode_into(&mut out);
        assert(out@ =~= enc_tx(self@));
        out
    }

    /// Reads the transaction that `bytes` starts with; what follows it is
    /// not looked at. `None` when the bytes start with no transaction.
    pub fn decode(bytes: &[u8]) -> (r: Option<Transaction>)
        ensures
            match r {
                Some(tx) => parse_tx_at(bytes@, 0) matches Some((v, _)) && v == tx@,
                None => parse_tx_at(bytes@, 0) is None,
            },
    {
        match take_tx(bytes, 0) {
            Some((tx, _)) => Some(tx),
            None => None,
        }
    }
}

fn take_evidence(buf: &[u8], pos: usize) -> (r: Option<(EvidenceRef, usize)>)
    ensures
        match r {
            Some((e, next)) => parse_evidence_at(buf@, pos as int) == Some((e@, next as int)),
            None => parse_evidence_at(buf@, pos as int) is None,
        },
{
    let (scheme_id, p1) = take_str(buf, pos)?;
    let (h, p2) = take_digest(buf, p1)?;
    let (wm_profile, p3) = take_profile(buf, p2)?;
    Some((EvidenceRef { scheme_id, evidence_hash: EvidenceHash(h), wm_profile }, p3))
}

fn take_tail(buf: &[u8], pos: usize) -> (r: Option<((u64, u64, Signature), usize)>)
    ensures
        match r {
            Some(((fee, nonce, sig), next)) => parse_tail_at(buf@, pos as int) == Some(
                ((fee, nonce, sig@), next as int),
            ),
            None => parse_tail_at(buf@, pos as int) is None,
        },
{
    let (fee, p1) = take_u64(buf, pos)?;
    let (nonce, p2) = take_u64(buf, p1)?;
    let (sig, p3) = take_bytes(buf, p2)?;
    Some(((fee, nonce, Signature(sig)), p3))
}

fn take_register(buf: &[u8], pos: usize) -> (r: Option<(TxRegisterModel, usize)>)
    ensures
        match r {
            Some((t, next)) => parse_register_at(buf@, pos as int) == Some((t@, next as int)),
            None => parse_register_at(buf@, pos as int) is None,
        },
{
    let (owner, p1) = take_digest(buf, pos)?;
    let (aid, p2) = take_digest(buf, p1)?;
    let (evidence, p3) = take_evidence(buf, p2)?;
    let ((fee, nonce, signature), p4) = take_tail(buf, p3)?;
    Some(
        (
            TxRegisterModel {
                owner: AccountId(owner),
                aid: Aid(aid),
                evidence,
                fee,
                nonce,
                signature,
            },
            p4,
        ),
    )
}

fn take_use(buf: &[u8], pos: usize) -> (r: Option<(TxUseModel, usize)>)
    ensures
        match r {
            Some((t, next)) => parse_use_at(buf@, pos as int) == Some((t@, next as int)),
            None => parse_use_at(buf@, pos as int) is None,
        },
{
    let (caller, p1) = take_digest(buf, pos)?;
    let (aid, p2) = take_digest(buf, p1)?;
    let (task, p3) = take_str(buf, p2)?;
    let (version, p4) = take_opt_str(buf, p3)?;
    let ((fee, nonce, signature), p5) = take_tail(buf, p4)?;
    Some(
        (
            TxUseModel {
                caller: AccountId(caller),
                aid: Aid(aid),
                metadata: ModelUseMetadata { task, version },
                fee,
                nonce,
                signature,
            },
            p5,
        ),
    )
}

fn take_transfer(buf: &[u8], pos: usize) -> (r: Option<(TxTransfer, usize)>)
    ensures
        match r {
            Some((t, next)) => parse_transfer_at(buf@, pos as int) == Some((t@, next as int)),
            None => parse_transfer_at(buf@, pos as int) is None,
        },
{
    let (from, p1) = take_digest(buf, pos)?;
    let (to, p2) = take_digest(buf, p1)?;
    let (amount, p3) = take_u64(buf, p2)?;
    let ((fee, nonce, signature), p4) = take_tail(buf, p3)?;
    Some(
        (
            TxTransfer { from: AccountId(from), to: AccountId(to), amount, fee, nonce, signature },
            p4,
        ),
    )
}

/// Reads the transaction at `pos`.
pub fn take_tx(buf: &[u8], pos: usize) -> (r: Option<(Transaction, usize)>)
    ensures
        match r {
            Some((tx, next)) => parse_tx_at(buf@, pos as int) == Some((tx@, next as int)),
            None => parse_tx_at(buf@, pos as int) is None,
        },
{
    let (tag, p) = take_u32(buf, pos)?;
    if tag == 0 {
        let (t, q) = take_register(buf, p)?;
        Some((Transaction::RegisterModel(t), q))
    } else if tag == 1 {
        let (t, q) = take_use(buf, p)?;
        Some((Transaction::UseModel(t), q))
    } else if tag == 2 {
        let (t, q) = take_transfer(buf, p)?;
        Some((Transaction::Transfer(t), q))
    } else {
        None
    }
}

proof fn lemma_parse_evidence(s: Seq<u8>, pos: int, e: EvidenceRefView)
    requires
        e.fits(),
        codec::holds_at(s, pos, enc_evidence(e)),
    ensures
        parse_evidence_at(s, pos) == Some((e, pos + enc_evidence(e).len())),
{
    let a = codec::enc_str(e.scheme_id);
    let b = e.evidence_hash.0@;
    let c = codec::enc_profile(e.wm_profile);
    codec::lemma_holds_split(s, pos, a + b, c);
    codec::lemma_holds_split(s, pos, a, b);
    codec::lemma_parse_str(s, pos, e.scheme_id);
    codec::lemma_parse_digest(s, pos + a.len(), e.evidence_hash.0);
    codec::lemma_parse_profile(s, pos + a.len() + 32, e.wm_profile);
}

proof fn lemma_parse_tail(s: Seq<u8>, pos: int, fee: u64, nonce: u64, signature: Seq<u8>)
    requires
        signature.len() <= u64::MAX,
        codec::holds_at(s, pos, codec::enc_u64(fee)),
        codec::holds_at(s, pos + codec::enc_u64(fee).len(), codec::enc_u64(nonce)),
        codec::holds_at(
            s,
            pos + codec::enc_u64(fee).len() + codec::enc_u64(nonce).len(),
            codec::enc_bytes(signature),
        ),
    ensures
        parse_tail_at(s, pos) == Some(
            (
                (fee, nonce, signature),
                pos + codec::enc_u64(fee).len() + codec::enc_u64(nonce).len() + codec::enc_bytes(
                    signature,
                ).len(),
            ),
        ),
{
    codec::lemma_parse_u64(s, pos, fee);
    codec::lemma_parse_u64(s, pos + codec::enc_u64(fee).len(), nonce);
    codec::lemma_parse_bytes(
        s,
        pos + codec::enc_u64(fee).len() + codec::enc_u64(nonce).len(),
        signature,
    );
}

proof fn lemma_parse_register(s: Seq<u8>, pos: int, t: TxRegisterModelView)
    requires
        TransactionView::RegisterModel(t).fits(),
        codec::holds_at(s, pos, enc_register(t)),
    ensures
        parse_register_at(s, pos) == Some((t, pos + enc_register(t).len())),
{
    let a = t.owner.0@;
    let b = t.aid.0@;
    let c = enc_evidence(t.evidence);
    let d = codec::enc_u64(t.fee);
    let e = codec::enc_u64(t.nonce);
    let f = codec::enc_bytes(t.signature);
    codec::lemma_holds_split(s, pos, a + b + c + d + e, f);
    codec::lemma_holds_split(s, pos, a + b + c + d, e);
    codec::lemma_holds_split(s, pos, a + b + c, d);
    codec::lemma_holds_split(s, pos, a + b, c);
    codec::lemma_holds_split(s, pos, a, b);
    codec::lemma_parse_digest(s, pos, t.owner.0);
    codec::lemma_parse_digest(s, pos + 32, t.aid.0);
    lemma_parse_evidence(s, pos + 64, t.evidence);
    lemma_parse_tail(s, pos + 64 + c.len(), t.fee, t.nonce, t.signature);
}

proof fn lemma_parse_metadata(s: Seq<u8>, pos: int, m: ModelUseMetadataView)
    requires
        utf8::encode_utf8(m.task).len() <= u64::MAX,
        m.version matches Some(v) ==> utf8::encode_utf8(v).len() <= u64::MAX,
        codec::holds_at(s, pos, enc_metadata(m)),
    ensures
        parse_metadata_at(s, pos) == Some((m, pos + enc_metadata(m).len())),
{
    let a = codec::enc_str(m.task);
    codec::lemma_holds_split(s, pos, a, codec::enc_opt_str(m.version));
    codec::lemma_parse_str(s, pos, m.task);
    codec::lemma_parse_opt_str(s, pos + a.len(), m.version);
}

proof fn lemma_parse_use(s: Seq<u8>, pos: int, t: TxUseModelView)
    requires
        TransactionView::UseModel(t).fits(),
        codec::holds_at(s, pos, enc_use(t)),
    ensures
        parse_use_at(s, pos) == Some((t, pos + enc_use(t).len())),
{
    let a = t.caller.0@;
    let b = t.aid.0@;
    let c = enc_metadata(t.metadata);
    let d = codec::enc_u64(t.fee);
    let e = codec::enc_u64(t.nonce);
    let f = codec::enc_bytes(t.signature);
    codec::lemma_holds_split(s, pos, a + b + c + d + e, f);
    codec::lemma_holds_split(s, pos, a + b + c + d, e);
    codec::lemma_holds_split(s, pos, a + b + c, d);
    codec::lemma_holds_split(s, pos, a + b, c);
    codec::lemma_holds_split(s, pos, a, b);
    codec::lemma_parse_digest(s, pos, t.caller.0);
    codec::lemma_parse_digest(s, pos + 32, t.aid.0);
    lemma_parse_metadata(s, pos + 64, t.metadata);
    lemma_parse_tail(s, pos + 64 + c.len(), t.fee, t.nonce, t.signature);
}

proof fn lemma_parse_transfer(s: Seq<u8>, pos: int, t: TxTransferView)
    requires
        TransactionView::Transfer(t).fits(),
        codec::holds_at(s, pos, enc_transfer(t)),
    ensures
        parse_transfer_at(s, pos) == Some((t, pos + enc_transfer(t).len())),
{
    let a = t.from.0@;
    let b = t.to.0@;
    let c = codec::enc_u64(t.amount);
    let d = codec::enc_u64(t.fee);
    let e = codec::enc_u64(t.nonce);
    let f = codec::enc_bytes(t.signature);
    codec::lemma_holds_split(s, pos, a + b + c + d + e, f);
    codec::lemma_holds_split(s, pos, a + b + c + d, e);
    codec::lemma_holds_split(s, pos, a + b + c, d);
    codec::lemma_holds_split(s, pos, a + b, c);
    codec::lemma_holds_split(s, pos, a, b);
    codec::lemma_parse_digest(s, pos, t.from.0);
    codec::lemma_parse_digest(s, pos + 32, t.to.0);
    codec::lemma_parse_u64(s, pos + 64, t.amount);
    lemma_parse_tail(s, pos + 64 + c.len(), t.fee, t.nonce, t.signature);
}

/// A reader finds the transaction that was written, wherever its bytes
/// stand.
pub proof fn lemma_parse_tx(s: Seq<u8>, pos: int, tx: TransactionView)
    requires
        tx.fits(),
        codec::holds_at(s, pos, enc_tx(tx)),
    ensures
        parse_tx_at(s, pos) == Some((tx, pos + enc_tx(tx).len())),
        enc_tx(tx).len() >= 1,
{
    let whole = enc_tx(tx);
    assert(s[pos] == s.subrange(pos, pos + whole.len())[0]);
    match tx {
        TransactionView::RegisterModel(t) => {
            codec::lemma_holds_split(s, pos, seq![0u8], enc_register(t));
            lemma_parse_register(s, pos + 1, t);
        },
        TransactionView::UseModel(t) => {
            codec::lemma_holds_split(s, pos, seq![1u8], enc_use(t));
            lemma_parse_use(s, pos + 1, t);
        },
        TransactionView::Transfer(t) => {
            codec::lemma_holds_split(s, pos, seq![2u8], enc_transfer(t));
            lemma_parse_transfer(s, pos + 1, t);
        },
    }
}

/// Decoding the canonical bytes of a transaction gives the transaction
/// back, whichever of the three variants it is.
pub proof fn lemma_tx_roundtrip(tx: TransactionView)
    requires
        tx.fits(),
    ensures
        parse_tx_at(enc_tx(tx), 0) == Some((tx, enc_tx(tx).len() as int)),
{
    codec::lemma_holds_whole(enc_tx(tx));
    lemma_parse_tx(enc_tx(tx), 0, tx);
}

} // verus!
