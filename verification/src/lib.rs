//! Price-oracle metadata for EVM chains: resolution of a chain's
//! feed-directory URL, decoding of directory documents into feed records,
//! pair-based lookup over the loaded records, a hand-curated fallback
//! catalog of oracle identities, and ABI call-payload encoding for the
//! standard oracle-proxy read methods.

use vstd::prelude::*;

pub mod abi;
pub mod address;
pub mod catalog;
pub mod chain;
pub mod feeds;
pub mod json;

pub use crate::chain::get_references_url;
pub use crate::feeds::LoadError;
pub use crate::feeds::Oracle;
pub use crate::feeds::OraclesIndex;

verus! {

/// A blockchain network, identified by its numeric chain id.
#[derive(Debug, Clone, Copy, PartialEq, Eq, Structural)]
pub struct ChainId(pub u64);

/// Failure to resolve a chain to its feed-directory URL: the chain is not
/// in the supported set.
#[derive(Debug, Clone, Copy, PartialEq, Eq, Structural)]
pub enum ResolveError {
    UnsupportedChain,
}

} // verus!
