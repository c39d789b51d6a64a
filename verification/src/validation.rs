//! Validation of model configurations, before and after conversion.

use vstd::prelude::*;

use crate::loader_types::{CoreGemmaModelConfig, ModelType, RawModelConfig};
use crate::model_error::ModelLoaderError;

verus! {

/// The bit pattern (IEEE 754, 64-bit) denotes a value less than or equal
/// to zero: positive or negative zero, a negative finite value, or
/// negative infinity.  Patterns above the negative-infinity pattern are
/// NaNs, which compare neither below nor above zero.
pub open spec fn f64_bits_le_zero(bits: u64) -> bool {
    ||| bits == 0
    ||| (0x8000_0000_0000_0000u64 <= bits && bits <= 0xFFF0_0000_0000_0000u64)
}

/// The bit pattern, once narrowed to single precision as the model
/// constructor consumes the value, denotes a value less than or equal to
/// zero: [`f64_bits_le_zero`], or a positive value at or below `2^-150`,
/// which rounding to nearest (ties to even) turns into single-precision
/// zero.  `0x3690...` is the pattern of `2^-150`.
pub open spec fn f64_bits_narrowed_le_zero(bits: u64) -> bool {
    ||| f64_bits_le_zero(bits)
    ||| (1 <= bits && bits <= 0x3690_0000_0000_0000u64)
}

/// A raw configuration carries every field the loader requires.  The
/// padding token, the RoPE theta, the cache flag and the checkpoint dtype
/// are genuinely optional and not demanded.
pub open spec fn raw_config_complete(raw: RawModelConfig) -> bool {
    &&& raw.vocab_size is Some
    &&& raw.hidden_size is Some
    &&& raw.intermediate_size is Some
    &&& raw.num_hidden_layers is Some
    &&& raw.num_attention_heads is Some
    &&& raw.num_key_value_heads is Some
    &&& raw.max_position_embeddings is Some
    &&& raw.rms_norm_eps is Some
    &&& raw.head_dim is Some
    &&& raw.model_type is Some
    &&& raw.eos_token_id is Some
    &&& raw.bos_token_id is Some
}

/// A declared architecture name, if present, names a supported family.
pub open spec fn raw_model_type_supported(raw: RawModelConfig) -> bool {
    raw.model_type matches Some(s) ==> ModelType::spec_from_name(s@) != ModelType::Other
}

/// A core configuration is architecturally consistent: nothing essential
/// is zero, the head counts divide as grouped-query attention requires,
/// the RMS-norm epsilon is positive even after the narrowing to single
/// precision, no quantization section is present, and for the Gemma
/// family the per-head width is the hidden width split evenly over the
/// heads.
pub open spec fn core_config_valid(c: CoreGemmaModelConfig) -> bool {
    &&& c.vocab_size >= 1
    &&& c.hidden_size >= 1
    &&& c.num_attention_heads >= 1
    &&& c.num_key_value_heads >= 1
    &&& c.hidden_size % c.num_attention_heads == 0
    &&& c.num_attention_heads % c.num_key_value_heads == 0
    &&& !f64_bits_narrowed_le_zero(c.rms_norm_eps)
    &&& c.head_dim >= 1
    &&& (c.model_type == ModelType::Gemma ==> c.head_dim == c.hidden_size
        / c.num_attention_heads)
    &&& c.quantization_config is None
}

/// One more reported problem: it follows the text so far, after a `"; "`
/// separator when something already stands there.
pub open spec fn with_problem(so_far: Seq<char>, already: bool, problem: Seq<char>) -> Seq<char> {
    if already {
        so_far + "; "@ + problem
    } else {
        so_far + problem
    }
}

/// The full text a failed raw-configuration check reports: every missing
/// required field in declaration order, then an unsupported architecture
/// name, joined with `"; "`.
pub open spec fn raw_config_problems(raw: RawModelConfig) -> Seq<char> {
    let t = Seq::<char>::empty();
    let a = false;
    let c = raw.vocab_size is None;
    let t = if c { with_problem(t, a, "missing required field: 'vocab_size'"@) } else { t };
    let a = a || c;
    let c = raw.hidden_size is None;
    let t = if c { with_problem(t, a, "missing required field: 'hidden_size'"@) } else { t };
    let a = a || c;
    let c = raw.intermediate_size is None;
    let t = if c { with_problem(t, a, "missing required field: 'intermediate_size'"@) } else { t };
    let a = a || c;
    let c = raw.num_hidden_layers is None;
    let t = if c { with_problem(t, a, "missing required field: 'num_hidden_layers'"@) } else { t };
    let a = a || c;
    let c = raw.num_attention_heads is None;
    let t = if c { with_problem(t, a, "missing required field: 'num_attention_heads'"@) } else { t };
    let a = a || c;
    let c = raw.num_key_value_heads is None;
    let t = if c { with_problem(t, a, "missing required field: 'num_key_value_heads'"@) } else { t };
    let a = a || c;
    let c = raw.max_position_embeddings is None;
    let t = if c { with_problem(t, a, "missing required field: 'max_position_embeddings'"@) } else { t };
    let a = a || c;
    let c = raw.rms_norm_eps is None;
    let t = if c { with_problem(t, a, "missing required field: 'rms_norm_eps'"@) } else { t };
    let a = a || c;
    let c = raw.head_dim is None;
    let t = if c { with_problem(t, a, "missing required field: 'head_dim'"@) } else { t };
    let a = a || c;
    let c = raw.model_type is None;
    let t = if c { with_problem(t, a, "missing required field: 'model_type'"@) } else { t };
    let a = a || c;
    let c = raw.eos_token_id is None;
    let t = if c { with_problem(t, a, "missing required field: 'eos_token_id'"@) } else { t };
    let a = a || c;
    let c = raw.bos_token_id is None;
    let t = if c { with_problem(t, a, "missing required field: 'bos_token_id'"@) } else { t };
    let a = a || c;
    let c = raw.model_type matches Some(s) && ModelType::spec_from_name(s@) == ModelType::Other;
    let t = if c { with_problem(t, a, "unsupported model_type"@) } else { t };
    t
}

/// The full text a failed core-configuration check reports, in check
/// order, joined with `"; "`.
pub open spec fn core_config_problems(c: CoreGemmaModelConfig) -> Seq<char> {
    let t = Seq::<char>::empty();
    let a = false;
    let p = c.vocab_size == 0;
    let t = if p { with_problem(t, a, "vocab_size must not be zero"@) } else { t };
    let a = a || p;
    let p = c.hidden_size == 0;
    let t = if p { with_problem(t, a, "hidden_size must not be zero"@) } else { t };
    let a = a || p;
    let p = c.num_attention_heads == 0;
    let t = if p { with_problem(t, a, "num_attention_heads must not be zero"@) } else { t };
    let a = a || p;
    let p = c.num_key_value_heads == 0;
    let t = if p { with_problem(t, a, "num_key_value_heads must not be zero"@) } else { t };
    let a = a || p;
    let p = c.num_attention_heads != 0 && c.hidden_size % c.num_attention_heads != 0;
    let t = if p { with_problem(t, a, "hidden_size must be a multiple of num_attention_heads"@) } else { t };
    let a = a || p;
    let p = c.num_key_value_heads != 0 && c.num_attention_heads % c.num_key_value_heads != 0;
    let t = if p {
        with_problem(t, a, "num_attention_heads must be a multiple of num_key_value_heads"@)
    } else {
        t
    };
    let a = a || p;
    let p = f64_bits_narrowed_le_zero(c.rms_norm_eps);
    let t = if p { with_problem(t, a, "rms_norm_eps must be positive"@) } else { t };
    let a = a || p;
    let p = c.head_dim == 0;
    let t = if p { with_problem(t, a, "head_dim must not be zero"@) } else { t };
    let a = a || p;
    let p = c.model_type == ModelType::Gemma && c.num_attention_heads != 0 && c.head_dim
        != c.hidden_size / c.num_attention_heads;
    let t = if p {
        with_problem(t, a, "for Gemma, head_dim must equal hidden_size / num_attention_heads"@)
    } else {
        t
    };
    let a = a || p;
    let p = c.quantization_config is Some;
    let t = if p { with_problem(t, a, "quantization sections are not supported"@) } else { t };
    t
}

/// Validates model configurations; quantization sections are rejected,
/// since this project serves unquantized checkpoints only.
#[derive(Debug, Clone)]
pub struct ModelConfigValidator;

impl ModelConfigValidator {
    /// Checks a raw configuration for completeness and a supported
    /// architecture.  Every problem found is reported in one
    /// `InvalidConfig` whose message is exactly
    /// [`raw_config_problems`]: the problems in check order, joined with
    /// `"; "`.
    pub fn validate_raw_config(raw_config: &RawModelConfig) -> (r: Result<(), ModelLoaderError>)
        ensures
            r is Ok <==> (raw_config_complete(*raw_config) && raw_model_type_supported(
                *raw_config,
            )),
            r is Err ==> (match r->Err_0 {
                ModelLoaderError::InvalidConfig { message } => message@ == raw_config_problems(
                    *raw_config,
                ),
                _ => false,
            }),
    {
        let mut message = String::new();
        let mut any = false;

        if raw_config.vocab_size.is_none() {
            if any {
                message.append("; ");
            }
            message.append("missing required field: 'vocab_size'");
            any = true;
        }
        if raw_config.hidden_size.is_none() {
            if any {
                message.append("; ");
            }
            message.append("missing required field: 'hidden_size'");
            any = true;
        }
        if raw_config.intermediate_size.is_none() {
            if any {
                message.append("; ");
            }
            message.append("missing required field: 'intermediate_size'");
            any = true;
        }
        if raw_config.num_hidden_layers.is_none() {
            if any {
                message.append("; ");
            }
            message.append("missing required field: 'num_hidden_layers'");
            any = true;
        }
        if raw_config.num_attention_heads.is_none() {
            if any {
                message.append("; ");
            }
            message.append("missing required field: 'num_attention_heads'");
            any = true;
        }
        if raw_config.num_key_value_heads.is_none() {
            if any {
                message.append("; ");
            }
            message.append("missing required field: 'num_key_value_heads'");
            any = true;
        }
        if raw_config.max_position_embeddings.is_none() {
            if any {
                message.append("; ");
            }
            message.append("missing required field: 'max_position_embeddings'");
            any = true;
        }
        if raw_config.rms_norm_eps.is_none() {
            if any {
                message.append("; ");
            }
            message.append("missing required field: 'rms_norm_eps'");
            any = true;
        }
        if raw_config.head_dim.is_none() {
            if any {
                message.append("; ");
            }
            message.append("missing required field: 'head_dim'");
            any = true;
        }
        if raw_config.model_type.is_none() {
            if any {
                message.append("; ");
            }
            message.append("missing required field: 'model_type'");
            any = true;
        }
        if raw_config.eos_token_id.is_none() {
            if any {
                message.append("; ");
            }
            message.append("missing required field: 'eos_token_id'");
            any = true;
        }
        if raw_config.bos_token_id.is_none() {
            if any {
                message.append("; ");
            }
            message.append("missing required field: 'bos_token_id'");
            any = true;
        }

        if let Some(name) = &raw_config.model_type {
            let family = ModelType::from(name.as_str());
            if family == ModelType::Other {
                if any {
                    message.append("; ");
                }
                message.append("unsupported model_type");
                any = true;
            }
        }

        if any {
            Err(ModelLoaderError::InvalidConfig { message })
        } else {
            Ok(())
        }
    }

    /// Checks a converted core configuration for architectural
    /// consistency.  Every problem found is reported in one
    /// `InvalidConfig` whose message is exactly
    /// [`core_config_problems`]: the problems in check order, joined
    /// with `"; "`.
    pub fn validate_core_config(core_config: &CoreGemmaModelConfig) -> (r: Result<
        (),
        ModelLoaderError,
    >)
        ensures
            r is Ok <==> core_config_valid(*core_config),
            r is Err ==> (match r->Err_0 {
                ModelLoaderError::InvalidConfig { message } => message@ == core_config_problems(
                    *core_config,
                ),
                _ => false,
            }),
    {
        let mut message = String::new();
        let mut any = false;

        if core_config.vocab_size == 0 {
            if any {
                message.append("; ");
            }
            message.append("vocab_size must not be zero");
            any = true;
        }
        if core_config.hidden_size == 0 {
            if any {
                message.append("; ");
            }
            message.append("hidden_size must not be zero");
            any = true;
        }
        if core_config.num_attention_heads == 0 {
            if any {
                message.append("; ");
            }
            message.append("num_attention_heads must not be zero");
            any = true;
        }
        if core_config.num_key_value_heads == 0 {
            if any {
                message.append("; ");
            }
            message.append("num_key_value_heads must not be zero");
            any = true;
        }
        if core_config.num_attention_heads != 0 && core_config.hidden_size
            % core_config.num_attention_heads != 0 {
            if any {
                message.append("; ");
            }
            message.append("hidden_size must be a multiple of num_attention_heads");
            any = true;
        }
        if core_config.num_key_value_heads != 0 && core_config.num_attention_heads
            % core_config.num_key_value_heads != 0 {
            if any {
                message.append("; ");
            }
            message.append("num_attention_heads must be a multiple of num_key_value_heads");
            any = true;
        }
        if core_config.rms_norm_eps == 0 || (0x8000_0000_0000_0000u64 <= core_config.rms_norm_eps
            && core_config.rms_norm_eps <= 0xFFF0_0000_0000_0000u64) || (1
            <= core_config.rms_norm_eps && core_config.rms_norm_eps
            <= 0x3690_0000_0000_0000u64) {
            if any {
                message.append("; ");
            }
            message.append("rms_norm_eps must be positive");
            any = true;
        }
        if core_config.head_dim == 0 {
            if any {
                message.append("; ");
            }
            message.append("head_dim must not be zero");
            any = true;
        }
        if core_config.model_type == ModelType::Gemma && core_config.num_attention_heads != 0
            && core_config.head_dim != core_config.hidden_size
            / core_config.num_attention_heads {
            if any {
                message.append("; ");
            }
            message.append(
                "for Gemma, head_dim must equal hidden_size / num_attention_heads",
            );
            any = true;
        }
        if core_config.quantization_config.is_some() {
            if any {
                message.append("; ");
            }
            message.append("quantization sections are not supported");
            any = true;
        }

        if any {
            Err(ModelLoaderError::InvalidConfig { message })
        } else {
            Ok(())
        }
    }
}

} // verus!
