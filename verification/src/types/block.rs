//! Blocks, their canonical bytes and their hashes.

use crate::codec;
use crate::codec::{put_digest, put_opt_bytes, put_u64, take_digest, take_opt_bytes, take_u64};
use crate::types;
use crate::types::tx;
use crate::types::tx::{take_tx, Transaction, TransactionView};
use crate::types::{AccountId, Aid, EvidenceRef, EvidenceRefView, Hash256};
use vstd::prelude::*;

verus! {

/// The hash of a block: the digest of its canonical bytes.
#[derive(Clone, Copy, Debug, Eq, Hash)]
pub struct BlockHash(pub Hash256);

impl PartialEq for BlockHash {
    fn eq(&self, other: &BlockHash) -> (r: bool) {
        self.0 == other.0
    }
}

impl vstd::std_specs::cmp::PartialEqSpecImpl for BlockHash {
    open spec fn obeys_eq_spec() -> bool {
        true
    }

    open spec fn eq_spec(&self, other: &BlockHash) -> bool {
        *self == *other
    }
}

/// What a [`Header`] holds, as plain values.
pub ghost struct HeaderView {
    pub parent: BlockHash,
    pub height: u64,
    pub timestamp: u64,
    pub proposer: AccountId,
    pub pos_proof: Option<Seq<u8>>,
}

/// The fields that link a block to its parent, order it and attribute it.
#[derive(Debug)]
pub struct Header {
    /// Hash of the parent block; all zero where there is none.
    pub parent: BlockHash,
    /// Height of this block; the first block has height 0.
    pub height: u64,
    /// Seconds since the Unix epoch.
    pub timestamp: u64,
    /// Account that proposed this block.
    pub proposer: AccountId,
    /// Room for a proof of eligibility, carried uninterpreted.
    pub pos_proof: Option<Vec<u8>>,
}

impl View for Header {
    type V = HeaderView;

    open spec fn view(&self) -> HeaderView {
        HeaderView {
            parent: self.parent,
            height: self.height,
            timestamp: self.timestamp,
            proposer: self.proposer,
            pos_proof: match self.pos_proof {
                Some(p) => Some(p@),
                None => None,
            },
        }
    }
}

impl Clone for Header {
    fn clone(&self) -> (r: Header)
        ensures
            r@ == self@,
    {
        Header {
            parent: self.parent,
            height: self.height,
            timestamp: self.timestamp,
            proposer: self.proposer,
            pos_proof: match &self.pos_proof {
                Some(p) => Some(p.clone()),
                None => None,
            },
        }
    }
}

/// The transactions of a vector, as plain values.
pub open spec fn tx_views(txs: Seq<Transaction>) -> Seq<TransactionView> {
    txs.map_values(|t: Transaction| t@)
}

/// The views of a vector that grew by one are the views before, and the
/// new one's.
pub proof fn lemma_tx_views_push(txs: Seq<Transaction>, t: Transaction)
    ensures
        tx_views(txs.push(t)) == tx_views(txs).push(t@),
{
    assert(tx_views(txs.push(t)) =~= tx_views(txs).push(t@));
}

/// What a [`Block`] holds, as plain values.
pub ghost struct BlockView {
    pub header: HeaderView,
    pub txs: Seq<TransactionView>,
}

/// A header and the ordered transactions under it.
#[derive(Debug)]
pub struct Block {
    /// Linking, ordering and proposer information.
    pub header: Header,
    /// The transactions, in order.
    pub txs: Vec<Transaction>,
}

impl View for Block {
    type V = BlockView;

    open spec fn view(&self) -> BlockView {
        BlockView { header: self.header@, txs: tx_views(self.txs@) }
    }
}

impl Clone for Block {
    fn clone(&self) -> (r: Block)
        ensures
            r@ == self@,
    {
        let mut txs: Vec<Transaction> = Vec::new();
        let mut i: usize = 0;
        while i < self.txs.len()
            invariant
                i <= self.txs.len(),
                tx_views(txs@) == tx_views(self.txs@).take(i as int),
            decreases self.txs.len() - i,
        {
            let t = self.txs[i].clone();
            proof {
                lemma_tx_views_push(txs@, t);
                let all = tx_views(self.txs@);
                assert(all.take(i + 1) =~= all.take(i as int).push(all[i as int]));
            }
            txs.push(t);
            i += 1;
        }
        assert(tx_views(self.txs@).take(i as int) =~= tx_views(self.txs@));
        Block { header: self.header.clone(), txs }
    }
}

/// The bytes of a header.
pub open spec fn enc_header(h: HeaderView) -> Seq<u8> {
    h.parent.0@ + codec::enc_u64(h.height) + codec::enc_u64(h.timestamp) + h.proposer.0@
        + codec::enc_opt_bytes(h.pos_proof)
}

/// The bytes of some transactions, one after the other.
pub open spec fn enc_tx_seq(txs: Seq<TransactionView>) -> Seq<u8>
    decreases txs.len(),
{
    if txs.len() == 0 {
        Seq::empty()
    } else {
        enc_tx_seq(txs.drop_last()) + tx::enc_tx(txs.last())
    }
}

/// The canonical bytes of a block: its header, the number of its
/// transactions, and the transactions in their order.
pub open spec fn enc_block(b: BlockView) -> Seq<u8> {
    enc_header(b.header) + codec::enc_u64(b.txs.len() as u64) + enc_tx_seq(b.txs)
}

/// The hash of a block: the digest of its canonical bytes.
pub open spec fn block_hash(b: BlockView) -> BlockHash {
    BlockHash(types::digest_of(enc_block(b)))
}

/// The header that starts at `pos`, and the position after it.
pub open spec fn parse_header_at(s: Seq<u8>, pos: int) -> Option<(HeaderView, int)> {
    match codec::parse_digest_at(s, pos) {
        Some((parent, p1)) => match codec::parse_u64_at(s, p1) {
            Some((height, p2)) => match codec::parse_u64_at(s, p2) {
                Some((timestamp, p3)) => match codec::parse_digest_at(s, p3) {
                    Some((proposer, p4)) => match codec::parse_opt_bytes_at(s, p4) {
                        Some((pos_proof, p5)) => Some(
                            (
                                HeaderView {
                                    parent: BlockHash(parent),
                                    height,
                                    timestamp,
                                    proposer: AccountId(proposer),
                                    pos_proof,
                                },
                                p5,
                            ),
                        ),
                        None => None,
                    },
                    None => None,
                },
                None => None,
            },
            None => None,
        },
        None => None,
    }
}

/// The `count` transactions that start at `pos`, and the position after
/// them.
pub open spec fn parse_txs_at(s: Seq<u8>, pos: int, count: nat) -> Option<
    (Seq<TransactionView>, int),
>
    decreases count,
{
    if count == 0 {
        Some((Seq::empty(), pos))
    } else {
        match parse_txs_at(s, pos, (count - 1) as nat) {
            Some((init, p)) => match tx::parse_tx_at(s, p) {
                Some((t, q)) => Some((init.push(t), q)),
                None => None,
            },
            None => None,
        }
    }
}

/// The block that starts at `pos`, and the position after it.
pub open spec fn parse_block_at(s: Seq<u8>, pos: int) -> Option<(BlockView, int)> {
    match parse_header_at(s, pos) {
        Some((header, p1)) => match codec::parse_u64_at(s, p1) {
            Some((count, p2)) => match parse_txs_at(s, p2, count as nat) {
                Some((txs, p3)) => Some((BlockView { header, txs }, p3)),
                None => None,
            },
            None => None,
        },
        None => None,
    }
}

impl BlockView {
    /// Every length in the block can be written down in 64 bits.
    pub open spec fn fits(self) -> bool {
        &&& self.header.pos_proof matches Some(p) ==> p.len() <= u64::MAX
        &&& self.txs.len() <= u64::MAX
        &&& forall|i: int| 0 <= i < self.txs.len() ==> (#[trigger] self.txs[i]).fits()
    }
}

/// The registrations among some transactions, in their order: each one's
/// artefact and evidence.
pub open spec fn ml_pairs_of(txs: Seq<TransactionView>) -> Seq<(Aid, EvidenceRefView)>
    decreases txs.len(),
{
    if txs.len() == 0 {
        Seq::empty()
    } else {
        let init = ml_pairs_of(txs.drop_last());
        match txs.last() {
            TransactionView::RegisterModel(t) => init.push((t.aid, t.evidence)),
            _ => init,
        }
    }
}

/// Pairs of artefact and evidence, as plain values.
pub open spec fn pair_views(pairs: Seq<(Aid, EvidenceRef)>) -> Seq<(Aid, EvidenceRefView)> {
    pairs.map_values(|p: (Aid, EvidenceRef)| (p.0, p.1@))
}

/// The pairs of a vector that grew by one are the pairs before, and the
/// new one's.
pub proof fn lemma_pair_views_push(pairs: Seq<(Aid, EvidenceRef)>, p: (Aid, EvidenceRef))
    ensures
        pair_views(pairs.push(p)) == pair_views(pairs).push((p.0, p.1@)),
{
    assert(pair_views(pairs.push(p)) =~= pair_views(pairs).push((p.0, p.1@)));
}

fn put_header(out: &mut Vec<u8>, h: &Header)
    ensures
        final(out)@ == old(out)@ + enc_header(h@),
        h@.pos_proof matches Some(p) ==> p.len() <= usize::MAX,
{
    put_digest(out, &h.parent.0);
    put_u64(out, h.height);
    put_u64(out, h.timestamp);
    put_digest(out, h.proposer.as_hash());
    put_opt_bytes(out, &h.pos_proof);
    assert(out@ =~= old(out)@ + enc_header(h@));
}

impl Block {
    /// The block's canonical bytes: the same for equal blocks, and enough to
    /// read the block back.
    pub fn canonical_bytes(&self) -> (out: Vec<u8>)
        ensures
            out@ == enc_block(self@),
            self@.fits(),
    {
        let mut out: Vec<u8> = Vec::new();
        put_header(&mut out, &self.header);
        put_u64(&mut out, self.txs.len() as u64);
        let ghost head = out@;
        let ghost all = tx_views(self.txs@);
        let mut i: usize = 0;
        while i < self.txs.len()
            invariant
                i <= self.txs.len(),
                all == tx_views(self.txs@),
                out@ == head + enc_tx_seq(all.take(i as int)),
                forall|j: int| 0 <= j < i ==> (#[trigger] all[j]).fits(),
            decreases self.txs.len() - i,
        {
            self.txs[i].encode_into(&mut out);
            proof {
                let next = all.take(i + 1);
                assert(next.drop_last() =~= all.take(i as int));
                assert(next.last() == all[i as int]);
                assert(out@ =~= head + enc_tx_seq(next));
            }
            i += 1;
        }
        proof {
            assert(all.take(i as int) =~= all);
            assert(out@ =~= enc_block(self@));
        }
        out
    }

    /// The block's hash: the digest of its canonical bytes.
    pub fn compute_hash(&self) -> (h: BlockHash)
        ensures
            h == block_hash(self@),
    {
        let bytes = self.canonical_bytes();
        BlockHash(Hash256::compute(bytes.as_slice()))
    }

    /// The artefact and the evidence of every registration in the block, in
    /// block order.
    pub fn ml_pairs(&self) -> (pairs: Vec<(Aid, EvidenceRef)>)
        ensures
            pair_views(pairs@) == ml_pairs_of(self@.txs),
    {
        let mut pairs: Vec<(Aid, EvidenceRef)> = Vec::new();
        let ghost all = tx_views(self.txs@);
        let mut i: usize = 0;
        while i < self.txs.len()
            invariant
                i <= self.txs.len(),
                all == tx_views(self.txs@),
                pair_views(pairs@) == ml_pairs_of(all.take(i as int)),
            decreases self.txs.len() - i,
        {
            proof {
                let next = all.take(i + 1);
                assert(next.drop_last() =~= all.take(i as int));
                assert(next.last() == all[i as int]);
            }
            match &self.txs[i] {
                Transaction::RegisterModel(t) => {
                    let p = (t.aid, t.evidence.clone());
                    proof {
                        lemma_pair_views_push(pairs@, p);
                    }
                    pairs.push(p);
                },
                _ => {},
            }
            i += 1;
        }
        proof {
            assert(all.take(i as int) =~= all);
        }
        pairs
    }

    /// Reads the block that `bytes` starts with; what follows it is not
    /// looked at. `None` when the bytes start with no block.
    pub fn decode(bytes: &[u8]) -> (r: Option<Block>)
        ensures
            match r {
                Some(b) => parse_block_at(bytes@, 0) matches Some((v, _)) && v == b@,
                None => parse_block_at(bytes@, 0) is None,
            },
    {
        let (header, p1) = take_header(bytes, 0)?;
        let (count, p2) = take_u64(bytes, p1)?;
        let mut txs: Vec<Transaction> = Vec::new();
        let mut cur: usize = p2;
        let mut i: u64 = 0;
        while i < count
            invariant
                i <= count,
                parse_header_at(bytes@, 0) == Some((header@, p1 as int)),
                codec::parse_u64_at(bytes@, p1 as int) == Some((count, p2 as int)),
                parse_txs_at(bytes@, p2 as int, i as nat) == Some((tx_views(txs@), cur as int)),
            decreases count - i,
        {
            match take_tx(bytes, cur) {
                None => {
                    proof {
                        assert(parse_txs_at(bytes@, p2 as int, (i + 1) as nat) is None);
                        lemma_parse_txs_stays_none(bytes@, p2 as int, (i + 1) as nat, count as nat);
                    }
                    return None;
                },
                Some((t, next)) => {
                    proof {
                        lemma_tx_views_push(txs@, t);
                    }
                    txs.push(t);
                    cur = next;
                },
            }
            i += 1;
        }
        Some(Block { header, txs })
    }
}

fn take_header(buf: &[u8], pos: usize) -> (r: Option<(Header, usize)>)
    ensures
        match r {
            Some((h, next)) => parse_header_at(buf@, pos as int) == Some((h@, next as int)),
            None => parse_header_at(buf@, pos as int) is None,
        },
{
    let (parent, p1) = take_digest(buf, pos)?;
    let (height, p2) = take_u64(buf, p1)?;
    let (timestamp, p3) = take_u64(buf, p2)?;
    let (proposer, p4) = take_digest(buf, p3)?;
    let (pos_proof, p5) = take_opt_bytes(buf, p4)?;
    Some(
        (
            Header {
                parent: BlockHash(parent),
                height,
                timestamp,
                proposer: AccountId(proposer),
                pos_proof,
            },
            p5,
        ),
    )
}

/// Where fewer transactions cannot be read, more cannot either.
proof fn lemma_parse_txs_stays_none(s: Seq<u8>, pos: int, few: nat, many: nat)
    requires
        few <= many,
        parse_txs_at(s, pos, few) is None,
    ensures
        parse_txs_at(s, pos, many) is None,
    decreases many,
{
    if few < many {
        lemma_parse_txs_stays_none(s, pos, few, (many - 1) as nat);
    }
}

proof fn lemma_parse_header(s: Seq<u8>, pos: int, h: HeaderView)
    requires
        h.pos_proof matches Some(p) ==> p.len() <= u64::MAX,
        codec::holds_at(s, pos, enc_header(h)),
    ensures
        parse_header_at(s, pos) == Some((h, pos + enc_header(h).len())),
{
    let a = h.parent.0@;
    let b = codec::enc_u64(h.height);
    let c = codec::enc_u64(h.timestamp);
    let d = h.proposer.0@;
    let e = codec::enc_opt_bytes(h.pos_proof);
    codec::lemma_holds_split(s, pos, a + b + c + d, e);
    codec::lemma_holds_split(s, pos, a + b + c, d);
    codec::lemma_holds_split(s, pos, a + b, c);
    codec::lemma_holds_split(s, pos, a, b);
    codec::lemma_parse_digest(s, pos, h.parent.0);
    codec::lemma_parse_u64(s, pos + 32, h.height);
    codec::lemma_parse_u64(s, pos + 32 + b.len(), h.timestamp);
    codec::lemma_parse_digest(s, pos + 32 + b.len() + c.len(), h.proposer.0);
    codec::lemma_parse_opt_bytes(s, pos + 32 + b.len() + c.len() + 32, h.pos_proof);
}

proof fn lemma_parse_txs(s: Seq<u8>, pos: int, txs: Seq<TransactionView>)
    requires
        forall|i: int| 0 <= i < txs.len() ==> (#[trigger] txs[i]).fits(),
        codec::holds_at(s, pos, enc_tx_seq(txs)),
    ensures
        parse_txs_at(s, pos, txs.len()) == Some((txs, pos + enc_tx_seq(txs).len())),
    decreases txs.len(),
{
    if txs.len() > 0 {
        let init = txs.drop_last();
        let last = txs.last();
        assert(enc_tx_seq(txs) == enc_tx_seq(init) + tx::enc_tx(last));
        codec::lemma_holds_split(s, pos, enc_tx_seq(init), tx::enc_tx(last));
        assert forall|i: int| 0 <= i < init.len() implies (#[trigger] init[i]).fits() by {
            assert(init[i] == txs[i]);
        }
        lemma_parse_txs(s, pos, init);
        assert(last == txs[txs.len() - 1]);
        tx::lemma_parse_tx(s, pos + enc_tx_seq(init).len(), last);
        assert(init.push(last) =~= txs);
        assert(parse_txs_at(s, pos, init.len()) == Some((init, pos + enc_tx_seq(init).len())));
        assert(init.len() == (txs.len() - 1) as nat);
    }
}

/// Decoding the canonical bytes of a block gives the block back.
pub proof fn lemma_block_roundtrip(b: BlockView)
    requires
        b.fits(),
    ensures
        parse_block_at(enc_block(b), 0) == Some((b, enc_block(b).len() as int)),
{
    let s = enc_block(b);
    let a = enc_header(b.header);
    let n = codec::enc_u64(b.txs.len() as u64);
    codec::lemma_holds_whole(s);
    codec::lemma_holds_split(s, 0, a + n, enc_tx_seq(b.txs));
    codec::lemma_holds_split(s, 0, a, n);
    lemma_parse_header(s, 0, b.header);
    codec::lemma_parse_u64(s, a.len() as int, b.txs.len() as u64);
    lemma_parse_txs(s, (a + n).len() as int, b.txs);
}

/// The hash of a block depends on what the block holds and on nothing else:
/// a block with the same content has the same hash, and so has the block
/// that is read back from the canonical bytes.
pub proof fn lemma_hash_deterministic(b: BlockView, copy: BlockView)
    requires
        b.fits(),
        copy == b,
    ensures
        block_hash(copy) == block_hash(b),
        parse_block_at(enc_block(b), 0) matches Some((read, _)) && block_hash(read) == block_hash(
            b,
        ),
{
    lemma_block_roundtrip(b);
}

} // verus!
