//! A minimal append-only ledger: transactions are signed with Ed25519 over a
//! SHA-256 digest of their canonical encoding, batched into blocks whose
//! Merkle root summarises them, sealed by a proof-of-work search for a
//! target-prefixed header hash, and chained by parent-hash reference.

pub mod codec;
pub mod transaction;
pub mod merkle;
pub mod block;
pub mod ledger;

pub use block::Block;
pub use block::BlockHeader;
pub use ledger::Blockchain;
pub use ledger::LedgerError;
pub use transaction::Transaction;
