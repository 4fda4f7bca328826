//! Block stores: one in memory, and the layout of the persistent one.

pub mod mem;
pub mod rocksdb;
