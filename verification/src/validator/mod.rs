//! A validator node: its pool, chain and wallets, the messages nodes
//! exchange, and the decisions the node takes on commands and messages.
pub mod message;
pub mod node;
