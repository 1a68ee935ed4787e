//! A small proof-of-work ledger: transactions, blocks, chains, wallets and
//! a pool of pending transactions, with the rules that tie them together.
//!
//! - `hex`, `hashing`, `keys`, `text`: hexadecimal text, SHA-256 hash texts,
//!   secp256k1 keys and signatures, and command-line words;
//! - `named`: a list of named entries read as a map;
//! - `standalone`: a ledger kept by one node, with hashed private keys;
//! - `blockchain`: the signed ledger that nodes share;
//! - `mempool`: pools of waiting transactions and how they answer messages;
//! - `validator`: a validator node's state and decisions.

pub mod hex;
pub mod hashing;
pub mod keys;
pub mod text;
pub mod named;
pub mod standalone;
pub mod blockchain;
pub mod mempool;
pub mod validator;
