//! A verified core for a NEAR transaction client: the nonce cache that keeps
//! the transactions of one access key in order, the retry schedules, the
//! transaction builders and the decisions taken on what the network answers.

pub mod error;
pub mod nonce;
pub mod ops;
pub mod outcome;
pub mod query;
pub mod retry;
pub mod signer;
pub mod status;
pub mod types;
pub mod units;
