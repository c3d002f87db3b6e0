//! Decision logic of a small service that relays signed transactions to a
//! Bitcoin node and reports the transaction id and the chain height.

pub mod broadcast;
pub mod config;
pub mod network;
pub mod response;
pub mod rpc;
pub mod service;
pub mod text;
pub mod txid;
