//! Reconciliation of candidate statements between validators, and the rules
//! that gate the execution of cross-consensus messages.

pub mod barrier;
pub mod coordinator;
pub mod filter;
pub mod knowledge;
pub mod primitives;
pub mod rebroadcast;
pub mod reputation;
pub mod requests;
pub mod response;
pub mod table;
