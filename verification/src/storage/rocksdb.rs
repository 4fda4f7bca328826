//! The layout of the persistent store: a namespace `blocks` from a block's
//! hash to its canonical bytes, and a namespace `meta` whose key `tip` holds
//! the 32 bytes of the current tip.

use crate::types::block::{Block, BlockHash};
use crate::types::Hash256;
use vstd::prelude::*;
use vstd::string::StringExecFns;

verus! {

/// Where the persistent store lives and whether it may be created.
#[derive(Debug)]
pub struct RocksDbConfig {
    /// Directory of the database.
    pub path: String,
    /// Whether to create the database and its namespaces when missing.
    pub create_if_missing: bool,
}

impl Clone for RocksDbConfig {
    fn clone(&self) -> (r: RocksDbConfig)
        ensures
            r.path@ == self.path@,
            r.create_if_missing == self.create_if_missing,
    {
        RocksDbConfig { path: self.path.clone(), create_if_missing: self.create_if_missing }
    }
}

impl Default for RocksDbConfig {
    fn default() -> (cfg: RocksDbConfig)
        ensures
            cfg.path@ == "data/chain-db"@,
            cfg.create_if_missing,
    {
        RocksDbConfig { path: String::from_str("data/chain-db"), create_if_missing: true }
    }
}

/// What a [`StorageError`] holds, as plain values.
pub ghost enum StorageErrorView {
    RocksDb(Seq<char>),
    MissingColumnFamily(Seq<char>),
    CorruptedMeta(Seq<char>),
}

/// Why the store could not read or write.
#[derive(Debug)]
pub enum StorageError {
    /// The underlying engine failed; its message.
    RocksDb(String),
    /// A namespace is missing after opening; its name.
    MissingColumnFamily(&'static str),
    /// A metadata entry is malformed; what is wrong with it.
    CorruptedMeta(&'static str),
}

impl View for StorageError {
    type V = StorageErrorView;

    open spec fn view(&self) -> StorageErrorView {
        match *self {
            StorageError::RocksDb(m) => StorageErrorView::RocksDb(m@),
            StorageError::MissingColumnFamily(n) => StorageErrorView::MissingColumnFamily(n@),
            StorageError::CorruptedMeta(w) => StorageErrorView::CorruptedMeta(w@),
        }
    }
}

impl StorageErrorView {
    /// The error in words.
    pub open spec fn text(self) -> Seq<char> {
        match self {
            StorageErrorView::RocksDb(m) => m,
            StorageErrorView::MissingColumnFamily(n) => "missing column family: "@ + n,
            StorageErrorView::CorruptedMeta(w) => "corrupted metadata: "@ + w,
        }
    }
}

impl StorageError {
    /// The error in words.
    pub fn to_text(&self) -> (s: String)
        ensures
            s@ == self@.text(),
    {
        match self {
            StorageError::RocksDb(m) => m.clone(),
            StorageError::MissingColumnFamily(n) => String::from_str(
                "missing column family: ",
            ).concat(n),
            StorageError::CorruptedMeta(w) => String::from_str("corrupted metadata: ").concat(w),
        }
    }
}

/// The tip that the bytes under the key `tip` stand for: `None` where the
/// key is absent, the digest where it holds exactly 32 bytes, and corrupted
/// metadata otherwise.
pub open spec fn tip_of(stored: Option<Seq<u8>>) -> Result<Option<BlockHash>, StorageErrorView> {
    match stored {
        None => Ok(None),
        Some(raw) => if raw.len() == 32 {
            Ok(Some(BlockHash(crate::codec::digest_from_bytes(raw))))
        } else {
            Err(StorageErrorView::CorruptedMeta("tip hash length"@))
        },
    }
}

/// Reads the tip out of what the key `tip` holds.
pub fn decode_tip(stored: Option<&[u8]>) -> (r: Result<Option<BlockHash>, StorageError>)
    ensures
        r matches Ok(Some(t)) ==> (stored matches Some(raw) && t.0@ == raw@),
        r is Err <==> (stored matches Some(raw) && raw@.len() != 32),
        match r {
            Ok(t) => tip_of(
                match stored {
                    Some(raw) => Some(raw@),
                    None => None,
                },
            ) == Ok::<Option<BlockHash>, StorageErrorView>(t),
            Err(e) => tip_of(
                match stored {
                    Some(raw) => Some(raw@),
                    None => None,
                },
            ) == Err::<Option<BlockHash>, StorageErrorView>(e@),
        },
{
    match stored {
        None => Ok(None),
        Some(raw) => {
            if raw.len() != 32 {
                return Err(StorageError::CorruptedMeta("tip hash length"));
            }
            match crate::codec::take_digest(raw, 0) {
                Some((h, _)) => {
                    assert(raw@.subrange(0, 32) =~= raw@);
                    Ok(Some(BlockHash(h)))
                },
                None => Err(StorageError::CorruptedMeta("tip hash length")),
            }
        },
    }
}

/// The bytes to keep under the key `tip` for the tip `hash`.
pub fn encode_tip(hash: &BlockHash) -> (raw: Vec<u8>)
    ensures
        raw@ == hash.0@,
        tip_of(Some(raw@)) == Ok::<Option<BlockHash>, StorageErrorView>(Some(*hash)),
{
    let mut raw: Vec<u8> = Vec::new();
    crate::codec::put_digest(&mut raw, &hash.0);
    proof {
        assert(raw@ =~= hash.0@);
        crate::types::lemma_digest_by_bytes(hash.0, crate::codec::digest_from_bytes(raw@));
    }
    raw
}

/// The key and the value under which `block` goes into the namespace
/// `blocks`: the 32 bytes of its hash, and its canonical bytes.
pub fn block_record(block: &Block) -> (kv: (Vec<u8>, Vec<u8>))
    ensures
        kv.0@ == crate::types::block::block_hash(block@).0@,
        kv.1@ == crate::types::block::enc_block(block@),
        block@.fits(),
        crate::types::block::parse_block_at(kv.1@, 0) matches Some((read, _)) && read == block@,
{
    let value = block.canonical_bytes();
    proof {
        crate::types::block::lemma_block_roundtrip(block@);
    }
    let hash = BlockHash(Hash256::compute(value.as_slice()));
    let mut key: Vec<u8> = Vec::new();
    crate::codec::put_digest(&mut key, &hash.0);
    assert(key@ =~= hash.0@);
    (key, value)
}

/// Reads a block out of a value of the namespace `blocks`.
pub fn decode_block(value: &[u8]) -> (r: Option<Block>)
    ensures
        match r {
            Some(b) => crate::types::block::parse_block_at(value@, 0) matches Some((v, _)) && v
                == b@,
            None => crate::types::block::parse_block_at(value@, 0) is None,
        },
{
    Block::decode(value)
}

} // verus!
