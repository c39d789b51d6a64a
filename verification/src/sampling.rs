//! Parameters that steer token sampling during generation.
//!
//! Fractional parameters are carried as the bit patterns of their values
//! (IEEE 754; 64-bit for the probabilities and the temperature, 32-bit
//! for the penalties): this crate states and checks which values the
//! presets carry, which the patterns decide exactly, and the sampling
//! backend turns them back into numbers.

use std::collections::HashMap;
use vstd::prelude::*;

verus! {

#[verifier::external_type_specification]
#[verifier::external_body]
pub struct ExJsonValue(serde_json::Value);

/// Relies on `serde_json::Value`'s derived `Clone`: a faithful copy of
/// the value.
pub assume_specification[ <serde_json::Value as Clone>::clone ](v: &serde_json::Value) -> (r:
    serde_json::Value)
    ensures
        r == *v,
;

/// Bit pattern (IEEE 754, 64-bit) of the default temperature, 0.7.
pub const TEMPERATURE_DEFAULT_BITS: u64 = 0x3FE6_6666_6666_6666;

/// Bit pattern (IEEE 754, 64-bit) of the default nucleus probability, 0.9.
pub const TOP_P_DEFAULT_BITS: u64 = 0x3FEC_CCCC_CCCC_CCCD;

/// Bit pattern (IEEE 754, 32-bit) of the default repetition penalty, 1.1.
pub const REPEAT_PENALTY_DEFAULT_BITS: u32 = 0x3F8C_CCCD;

/// Bit pattern of a zero temperature: greedy decoding.
pub const TEMPERATURE_ZERO_BITS: u64 = 0;

/// A constraint applied while generating tokens.
#[derive(Debug, Clone, PartialEq, Default)]
pub enum GenerationConstraint {
    /// No constraint.
    #[default]
    Unconstrained,
    /// The generated text must match this regular expression.
    Regex(String),
    /// The generated text must follow this Lark grammar.
    Lark(String),
    /// The generated text must be JSON valid under this schema.
    JsonSchema(serde_json::Value),
}

/// Token sequences or ids that stop generation.
#[derive(Debug, Clone, PartialEq)]
pub enum StopTokens {
    /// Stop at any of these strings.
    Seqs(Vec<String>),
    /// Stop at any of these token ids.
    Ids(Vec<u32>),
    /// No stop tokens.
    Unset,
}

impl Default for StopTokens {
    /// No stop tokens by default.
    fn default() -> (r: StopTokens)
        ensures
            r is Unset,
    {
        StopTokens::Unset
    }
}

/// Parameters of the sampling process.
#[derive(Debug, Clone, PartialEq)]
pub struct SamplingParams {
    /// Bit pattern of the sampling temperature; higher means more random.
    pub temperature: Option<u64>,
    /// Bit pattern of the nucleus-sampling probability.
    pub top_p: Option<u64>,
    /// Only the `k` most likely next tokens are considered.
    pub top_k: Option<usize>,
    /// Bit pattern of the smallest probability a token may have.
    pub min_p: Option<u64>,
    /// Bit pattern (32-bit) of the repetition penalty.
    pub repeat_penalty: Option<u32>,
    /// Bit pattern (32-bit) of the presence penalty.
    pub presence_penalty: Option<u32>,
    /// Explicit logit offsets by token id, as 32-bit patterns.
    pub logits_bias: Option<HashMap<u32, u32>>,
    /// How many top log-probabilities to return.
    pub top_n_logprobs: usize,
    /// Seed of the random generator, for reproducibility.
    pub seed: Option<u64>,
    /// The constraint applied while generating.
    pub constraint: GenerationConstraint,
}

impl SamplingParams {
    /// The documented default values: temperature 0.7, nucleus 0.9,
    /// top-k 50, repetition penalty 1.1, seed 42, no other limits and no
    /// constraint.
    pub open spec fn is_default(self) -> bool {
        &&& self.temperature == Some(TEMPERATURE_DEFAULT_BITS)
        &&& self.top_p == Some(TOP_P_DEFAULT_BITS)
        &&& self.top_k == Some(50usize)
        &&& self.min_p is None
        &&& self.repeat_penalty == Some(REPEAT_PENALTY_DEFAULT_BITS)
        &&& self.presence_penalty is None
        &&& self.logits_bias is None
        &&& self.top_n_logprobs == 0
        &&& self.seed == Some(42u64)
        &&& self.constraint is Unconstrained
    }
}

impl Default for SamplingParams {
    fn default() -> (r: SamplingParams)
        ensures
            r.is_default(),
    {
        SamplingParams {
            temperature: Some(TEMPERATURE_DEFAULT_BITS),
            top_p: Some(TOP_P_DEFAULT_BITS),
            top_k: Some(50),
            min_p: None,
            repeat_penalty: Some(REPEAT_PENALTY_DEFAULT_BITS),
            presence_penalty: None,
            logits_bias: None,
            top_n_logprobs: 0,
            seed: Some(42),
            constraint: GenerationConstraint::Unconstrained,
        }
    }
}

impl SamplingParams {
    /// The parameters of deterministic (greedy) generation: temperature
    /// zero, a single candidate token, no nucleus or minimum-probability
    /// cut, and the remaining fields at their defaults.
    pub fn deterministic() -> (r: SamplingParams)
        ensures
            r.temperature == Some(TEMPERATURE_ZERO_BITS),
            r.top_k == Some(1usize),
            r.top_p is None,
            r.min_p is None,
            r.repeat_penalty == Some(REPEAT_PENALTY_DEFAULT_BITS),
            r.presence_penalty is None,
            r.logits_bias is None,
            r.top_n_logprobs == 0,
            r.seed == Some(42u64),
            r.constraint is Unconstrained,
    {
        SamplingParams {
            temperature: Some(TEMPERATURE_ZERO_BITS),
            top_p: None,
            top_k: Some(1),
            min_p: None,
            repeat_penalty: Some(REPEAT_PENALTY_DEFAULT_BITS),
            presence_penalty: None,
            logits_bias: None,
            top_n_logprobs: 0,
            seed: Some(42),
            constraint: GenerationConstraint::Unconstrained,
        }
    }
}

} // verus!
