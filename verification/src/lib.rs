//! Core building blocks of a Gemma-style decoder-only transformer layer:
//! rotary positional encoding (RoPE), grouped-query attention (GQA) and an
//! incremental key/value cache, together with the configuration,
//! validation and utility types that surround them.
//!
//! Tensor arithmetic is carried out by the `burn` framework on its CPU
//! backend; every call into it goes through the small trusted surface in
//! [`tensor`], whose contracts state what each backend operation does over
//! the tensors' shapes and, where the source pins it, their contents.
//! Everything above that surface is verified: shapes are proved compatible
//! at every step (so no call can trip the backend's shape checks), every
//! data movement — the cache append, the rotary gather and rotation, the
//! grouped-head tiling — is pinned element by element, and every failure
//! is returned, never raised.

pub mod architectures;
pub mod attention;
pub mod config;
pub mod error;
pub mod inference;
pub mod kv_cache;
pub mod loader;
pub mod loader_types;
pub mod model_error;
pub mod path_util;
pub mod rope;
pub mod sampling;
pub mod tensor;
pub mod utils_error;
pub mod validation;
