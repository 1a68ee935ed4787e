//! The networked ledger: transactions signed with secp256k1 wallets, blocks
//! of them, the chain that accepts blocks, and wallets by name.
pub mod transaction;
pub mod signed_transaction;
pub mod block;
pub mod blockchain;
pub mod wallet;
pub mod wallet_manager;
pub mod commands;
