//! Load generation for the data availability layer of an Avail node: the decisions and the data
//! of two programs, one that submits blobs from a single development account and one that
//! submits them in turn from many derived accounts.

pub mod account;
pub mod blob;
pub mod config;
pub mod nonce;
pub mod pacing;
pub mod report;
pub mod retry;
pub mod rpc_error;
pub mod spammer;
pub mod stats;
pub mod sybil;
pub mod text;
