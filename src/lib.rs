//! Verified core of a token faucet: transfer jobs for EVM-style and
//! Substrate-style chains, the per-job execution steps, and the single
//! consumer that runs queued jobs one at a time and replies to each once.

pub mod amount;
pub mod types;
pub mod executor;
pub mod processor;
