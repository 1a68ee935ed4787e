//! The pool of transactions that wait for a block, the messages that pools
//! exchange, and how a pool answers them.
pub mod mempool;
pub mod message;
pub mod app;
pub mod command;
