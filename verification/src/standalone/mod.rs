//! A single-node ledger: plain transactions that carry their own signature
//! text, blocks of them, and wallets whose public key is the hash of the
//! private one.
pub mod transaction;
pub mod block;
pub mod blockchain;
pub mod wallet;
pub mod wallet_manager;
