//! Verified core of a token vault: an exact binary encoder for router swap
//! calls and a proportional distribution engine that plans withdrawal and
//! rebalance batches over a list of held assets.

pub mod encoder;
pub mod types;
pub mod u256;
pub mod vault;
pub mod words;
