//! A non-fungible-token ownership registry: a ledger that tracks which single
//! address owns each token, enforces transfer authorization, and maintains
//! approval delegations. The ledger is an explicit state object; the hosting
//! chain environment (caller identity, code probes, the receiver callback)
//! hands its answers in as plain values.

pub mod u256;
pub mod types;
mod kv;
pub mod erc721;
pub mod nft;
