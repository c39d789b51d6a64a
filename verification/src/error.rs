//! The error taxonomy of the attention core.

use vstd::prelude::*;

use crate::kv_cache::KVCacheError;

verus! {

/// Every failure the attention core returns.  All failures are returned,
/// never raised: construction fails fast with `InvalidConfig` and produces
/// no partial object; a tensor whose dimensions disagree with what an
/// operation needs is reported as `IncompatibleShape`; a token position
/// beyond the precomputed rotation table as `PositionOutOfBounds`; cache
/// failures are passed through under `KVCache`.
#[derive(Debug)]
pub enum BurnCoreError {
    /// A configuration violates an architectural constraint (an odd RoPE
    /// dimension, a head count that the key/value head count does not
    /// divide).
    InvalidConfig(String),
    /// Tensor dimensions disagree with the operation's shape contract.
    IncompatibleShape(String),
    /// A token position lies at or beyond the precomputed table length.
    PositionOutOfBounds { position: usize, max_len: usize },
    /// A failure of the key/value cache.
    KVCache(KVCacheError),
    /// Any other failure of the core.
    Generic(String),
}

} // verus!
