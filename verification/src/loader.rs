//! Conversion of a raw model configuration into the complete core form.
//!
//! Reading the configuration file and the weight shards is I/O and lives
//! outside this crate; what it hands over is a [`RawModelConfig`], and the
//! conversion and its defaults are pinned here.

use vstd::prelude::*;

use crate::loader_types::{CoreGemmaModelConfig, ModelType, RawModelConfig};
use crate::model_error::ModelLoaderError;

verus! {

/// Bit pattern (IEEE 754, 64-bit) of the default RoPE base, 10000.
pub const ROPE_THETA_DEFAULT_BITS: u64 = 0x40C3_8800_0000_0000;

/// Default end-of-sequence token id of the Gemma family.
pub const EOS_TOKEN_ID_DEFAULT: usize = 1;

/// Default beginning-of-sequence token id of the Gemma family.
pub const BOS_TOKEN_ID_DEFAULT: usize = 2;

/// The fields a raw configuration must carry for the conversion to
/// succeed.  The token ids, the RoPE theta and the cache flag have
/// defaults and may be absent.
pub open spec fn convert_ready(raw: RawModelConfig) -> bool {
    &&& raw.vocab_size is Some
    &&& raw.hidden_size is Some
    &&& raw.intermediate_size is Some
    &&& raw.num_hidden_layers is Some
    &&& raw.num_attention_heads is Some
    &&& raw.num_key_value_heads is Some
    &&& raw.max_position_embeddings is Some
    &&& raw.rms_norm_eps is Some
    &&& raw.head_dim is Some
    &&& raw.model_type is Some
}

/// Loads models: parses and validates their configuration and hands the
/// result to the model constructor.  The file-reading half lives with the
/// surrounding application; the conversion below is the computing half.
#[derive(Debug, Clone)]
pub struct ModelLoader;

impl ModelLoader {
    /// Converts a raw configuration into the complete core form.
    ///
    /// Succeeds exactly when every required field of [`convert_ready`] is
    /// present; a missing field is reported as `ConfigParsing`.  On
    /// success every core field equals its raw counterpart; the token
    /// ids, the RoPE theta and the cache flag fall back to their
    /// documented defaults where absent, the architecture name is parsed
    /// ignoring ASCII case, and no quantization section is carried.
    pub fn convert_raw_config_to_core_config(raw_config: &RawModelConfig) -> (r: Result<
        CoreGemmaModelConfig,
        ModelLoaderError,
    >)
        ensures
            r is Ok <==> convert_ready(*raw_config),
            r is Err ==> r->Err_0 is ConfigParsing,
            r is Ok ==> {
                let c = r->Ok_0;
                &&& c.vocab_size == raw_config.vocab_size->0
                &&& c.hidden_size == raw_config.hidden_size->0
                &&& c.intermediate_size == raw_config.intermediate_size->0
                &&& c.num_hidden_layers == raw_config.num_hidden_layers->0
                &&& c.num_attention_heads == raw_config.num_attention_heads->0
                &&& c.num_key_value_heads == raw_config.num_key_value_heads->0
                &&& c.max_position_embeddings == raw_config.max_position_embeddings->0
                &&& c.rms_norm_eps == raw_config.rms_norm_eps->0
                &&& c.head_dim == raw_config.head_dim->0
                &&& c.eos_token_id == (if raw_config.eos_token_id is Some {
                    raw_config.eos_token_id->0
                } else {
                    EOS_TOKEN_ID_DEFAULT
                })
                &&& c.bos_token_id == (if raw_config.bos_token_id is Some {
                    raw_config.bos_token_id->0
                } else {
                    BOS_TOKEN_ID_DEFAULT
                })
                &&& c.pad_token_id == raw_config.pad_token_id
                &&& c.rope_theta == (if raw_config.rope_theta is Some {
                    raw_config.rope_theta->0
                } else {
                    ROPE_THETA_DEFAULT_BITS
                })
                &&& c.use_cache == (if raw_config.use_cache is Some {
                    raw_config.use_cache->0
                } else {
                    true
                })
                &&& c.torch_dtype == raw_config.torch_dtype
                &&& c.quantization_config is None
                &&& c.model_type == ModelType::spec_from_name(raw_config.model_type->0@)
            },
    {
        let vocab_size = match raw_config.vocab_size {
            Some(v) => v,
            None => {
                return Err(Self::missing("missing 'vocab_size'"));
            },
        };
        let hidden_size = match raw_config.hidden_size {
            Some(v) => v,
            None => {
                return Err(Self::missing("missing 'hidden_size'"));
            },
        };
        let intermediate_size = match raw_config.intermediate_size {
            Some(v) => v,
            None => {
                return Err(Self::missing("missing 'intermediate_size'"));
            },
        };
        let num_hidden_layers = match raw_config.num_hidden_layers {
            Some(v) => v,
            None => {
                return Err(Self::missing("missing 'num_hidden_layers'"));
            },
        };
        let num_attention_heads = match raw_config.num_attention_heads {
            Some(v) => v,
            None => {
                return Err(Self::missing("missing 'num_attention_heads'"));
            },
        };
        let num_key_value_heads = match raw_config.num_key_value_heads {
            Some(v) => v,
            None => {
                return Err(Self::missing("missing 'num_key_value_heads'"));
            },
        };
        let max_position_embeddings = match raw_config.max_position_embeddings {
            Some(v) => v,
            None => {
                return Err(Self::missing("missing 'max_position_embeddings'"));
            },
        };
        let rms_norm_eps = match raw_config.rms_norm_eps {
            Some(v) => v,
            None => {
                return Err(Self::missing("missing 'rms_norm_eps'"));
            },
        };
        let head_dim = match raw_config.head_dim {
            Some(v) => v,
            None => {
                return Err(Self::missing("missing 'head_dim'"));
            },
        };
        let model_type = match &raw_config.model_type {
            Some(name) => ModelType::from(name.as_str()),
            None => {
                return Err(Self::missing("missing or invalid 'model_type'"));
            },
        };

        let eos_token_id = match raw_config.eos_token_id {
            Some(v) => v,
            None => EOS_TOKEN_ID_DEFAULT,
        };
        let bos_token_id = match raw_config.bos_token_id {
            Some(v) => v,
            None => BOS_TOKEN_ID_DEFAULT,
        };
        let rope_theta = match raw_config.rope_theta {
            Some(v) => v,
            None => ROPE_THETA_DEFAULT_BITS,
        };
        let use_cache = match raw_config.use_cache {
            Some(v) => v,
            None => true,
        };
        let torch_dtype = match &raw_config.torch_dtype {
            Some(s) => Some(s.clone()),
            None => None,
        };

        Ok(
            CoreGemmaModelConfig {
                vocab_size,
                hidden_size,
                intermediate_size,
                num_hidden_layers,
                num_attention_heads,
                num_key_value_heads,
                max_position_embeddings,
                rms_norm_eps,
                rope_theta,
                use_cache,
                torch_dtype,
                quantization_config: None,
                head_dim,
                eos_token_id,
                bos_token_id,
                pad_token_id: raw_config.pad_token_id,
                model_type,
            },
        )
    }

    /// A `ConfigParsing` error for a configuration assembled in memory.
    fn missing(what: &str) -> (r: ModelLoaderError)
        ensures
            r is ConfigParsing,
    {
        ModelLoaderError::ConfigParsing {
            path: String::from_str("in-memory configuration (derived)"),
            source: String::from_str(what),
        }
    }
}

} // verus!
