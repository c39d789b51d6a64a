//! Identification of model architectures and their common metadata.

use vstd::prelude::*;

verus! {

/// The architecture family a model belongs to.  Unknown families are
/// carried through with their original name rather than rejected, so that
/// callers can report them.
#[derive(Debug, Clone, PartialEq, Eq, Hash)]
pub enum ModelType {
    /// The Gemma family.
    Gemma,
    /// The LLaMA family.
    Llama,
    /// The Phi family.
    Phi,
    /// Any other family, carried by name.
    Other(String),
}

/// Common metadata of a model, as its configuration file states it.
#[derive(Debug, Clone, PartialEq)]
pub struct ModelInfo {
    /// The architecture family.
    pub model_type: ModelType,
    /// The longest sequence the model can process.
    pub max_sequence_length: usize,
    /// The tokenizer's vocabulary size.
    pub vocab_size: usize,
    /// The hidden (embedding) width.
    pub hidden_size: usize,
    /// How many decoder blocks the model stacks.
    pub num_hidden_layers: usize,
    /// The number of attention heads.
    pub num_attention_heads: usize,
    /// The number of key/value heads for grouped-query attention.
    pub num_key_value_heads: usize,
}

} // verus!
