use chain::storage::rocksdb::{block_record, decode_block, decode_tip, encode_tip};
use chain::types::block::BlockHash;
use chain::{
    AccountId, Block, BlockStore, Hash256, Header, InMemoryBlockStore, RocksDbConfig,
    StorageError, HASH_LEN,
};

fn dummy_hash(byte: u8) -> Hash256 {
    Hash256([byte; HASH_LEN])
}

fn dummy_block(height: u64) -> Block {
    let header = Header {
        parent: BlockHash(dummy_hash(0)),
        height,
        timestamp: 1_700_000_000 + height,
        proposer: AccountId(dummy_hash(1)),
        pos_proof: None,
    };

    Block { header, txs: Vec::new() }
}

#[test]
fn put_and_get_block_roundtrip() {
    let mut store = InMemoryBlockStore::new();
    let block = dummy_block(0);
    let hash = block.compute_hash();

    store.put_block(block.clone()).expect("put");
    let fetched = store.get_block(&hash).expect("block should be present");

    assert_eq!(fetched.header.height, 0);
    assert_eq!(store.len(), 1);
    assert_eq!(fetched.canonical_bytes(), block.canonical_bytes());
}

#[test]
fn tip_is_tracked_separately_from_blocks() {
    let mut store = InMemoryBlockStore::new();
    let block = dummy_block(5);
    let hash = block.compute_hash();

    store.put_block(block).expect("put");
    assert!(store.tip().is_none());

    store.set_tip(hash).expect("set tip");
    let tip = store.tip().expect("tip should be set");
    assert_eq!(tip.0.as_bytes(), hash.0.as_bytes());
}

#[test]
fn putting_a_block_twice_keeps_one() {
    let mut store = InMemoryBlockStore::new();
    assert!(store.is_empty());
    assert_eq!(store.len(), 0);
    store.put_block(dummy_block(1)).expect("put");
    store.put_block(dummy_block(2)).expect("put");
    store.put_block(dummy_block(1)).expect("put");
    assert_eq!(store.len(), 2);
    assert!(!store.is_empty());
    assert!(store.get_block(&dummy_block(3).compute_hash()).is_none());
    assert_eq!(store.get_block(&dummy_block(2).compute_hash()).expect("held").header.height, 2);
}

#[test]
fn tip_bytes_must_be_32() {
    assert_eq!(decode_tip(None).expect("absent"), None);
    let hash = BlockHash(dummy_hash(7));
    let raw = encode_tip(&hash);
    assert_eq!(raw, vec![7u8; 32]);
    assert_eq!(decode_tip(Some(&raw)).expect("tip"), Some(hash));
    match decode_tip(Some(&raw[..31])) {
        Err(StorageError::CorruptedMeta(what)) => assert_eq!(what, "tip hash length"),
        other => panic!("unexpected result: {other:?}"),
    }
    match decode_tip(Some(&[0u8; 33])) {
        Err(StorageError::CorruptedMeta(what)) => assert_eq!(what, "tip hash length"),
        other => panic!("unexpected result: {other:?}"),
    }
}

#[test]
fn block_record_is_hash_and_canonical_bytes() {
    let block = dummy_block(3);
    let (key, value) = block_record(&block);
    assert_eq!(key, block.compute_hash().0.as_bytes().to_vec());
    assert_eq!(value, block.canonical_bytes());
    let read = decode_block(&value).expect("decode");
    assert_eq!(read.header.height, 3);
    assert!(decode_block(&value[..10]).is_none());
}

#[test]
fn storage_errors_in_words() {
    assert_eq!(StorageError::RocksDb("io".to_string()).to_text(), "io");
    assert_eq!(
        StorageError::MissingColumnFamily("blocks").to_text(),
        "missing column family: blocks"
    );
    assert_eq!(
        StorageError::CorruptedMeta("tip hash length").to_text(),
        "corrupted metadata: tip hash length"
    );
}

#[test]
fn default_store_is_empty() {
    let store = InMemoryBlockStore::default();
    assert!(store.is_empty());
    assert!(store.tip().is_none());
}

#[test]
fn persistent_store_defaults() {
    let cfg = RocksDbConfig::default();
    assert_eq!(cfg.path, "data/chain-db");
    assert!(cfg.create_if_missing);
    let copy = cfg.clone();
    assert_eq!(copy.path, cfg.path);
}
