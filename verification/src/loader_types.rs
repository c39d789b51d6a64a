//! The configuration types a model loader works with: the raw form read
//! from a model's configuration file, and the complete core form the model
//! constructor consumes.
//!
//! Fractional hyperparameters (the RMS-norm epsilon and the RoPE theta)
//! are carried as the bit patterns (IEEE 754, 64-bit) of their values:
//! this crate's logic only checks their presence and sign, which those
//! patterns decide exactly.  The backend layer turns them back into
//! numbers at the single precision the model constructor consumes, and
//! the validation accounts for that narrowing where it is observable
//! (`crate::validation::f64_bits_narrowed_le_zero`).

use vstd::prelude::*;

verus! {

/// The raw model configuration, field for field as a configuration file
/// supplies it; everything may be absent.
#[derive(Debug, Clone)]
pub struct RawModelConfig {
    /// Vocabulary size.
    pub vocab_size: Option<usize>,
    /// Hidden width.
    pub hidden_size: Option<usize>,
    /// Width of the feed-forward intermediate layer.
    pub intermediate_size: Option<usize>,
    /// Number of decoder blocks.
    pub num_hidden_layers: Option<usize>,
    /// Number of attention heads.
    pub num_attention_heads: Option<usize>,
    /// Number of key/value heads.
    pub num_key_value_heads: Option<usize>,
    /// Longest supported sequence.
    pub max_position_embeddings: Option<usize>,
    /// Bit pattern of the RMS-norm epsilon.
    pub rms_norm_eps: Option<u64>,
    /// Bit pattern of the RoPE base theta.
    pub rope_theta: Option<u64>,
    /// Whether generation should use a key/value cache.
    pub use_cache: Option<bool>,
    /// The tensor element type the checkpoint was written with.
    pub torch_dtype: Option<String>,
    /// The architecture name, e.g. "gemma".
    pub model_type: Option<String>,
    /// End-of-sequence token id.
    pub eos_token_id: Option<usize>,
    /// Beginning-of-sequence token id.
    pub bos_token_id: Option<usize>,
    /// Padding token id; may genuinely be absent.
    pub pad_token_id: Option<usize>,
    /// Per-head feature width.
    pub head_dim: Option<usize>,
}

/// A quantization section of a model configuration.  This loader serves
/// unquantized checkpoints only, so the core configuration always carries
/// `None` of it; the field exists so that its presence can be rejected.
#[derive(Debug, Clone, PartialEq, Eq, Structural)]
pub struct QuantizationSettings {}

/// The architecture families this loader understands.
#[derive(Debug, Clone, PartialEq, Eq, Structural)]
pub enum ModelType {
    /// The Gemma family.
    Gemma,
    /// The LLaMA family.
    Llama,
    /// The Phi family.
    Phi,
    /// An unsupported or unknown family.
    Other,
}

/// Character `c` is character `k` up to ASCII case: equal outright, or an
/// ASCII capital whose lower-case form is `k`.
pub open spec fn char_eq_lower(c: char, k: char) -> bool {
    ||| c == k
    ||| (('A' as u32) <= (c as u32) && (c as u32) <= ('Z' as u32) && (c as u32) + 32 == (k as u32))
}

/// String `s` spells the (lower-case) keyword `kw` up to ASCII case.
pub open spec fn spells_keyword(s: Seq<char>, kw: Seq<char>) -> bool {
    s.len() == kw.len() && forall|i: int|
        0 <= i < s.len() ==> #[trigger] char_eq_lower(s[i], kw[i])
}

/// Whether `s` spells `kw` up to ASCII case, decided character by
/// character.
fn eq_keyword(s: &str, kw: &str) -> (r: bool)
    ensures
        r == spells_keyword(s@, kw@),
{
    let n = s.unicode_len();
    let m = kw.unicode_len();
    if n != m {
        return false;
    }
    let mut i: usize = 0;
    while i < n
        invariant
            n == s@.len(),
            n == kw@.len(),
            i <= n,
            forall|t: int| 0 <= t < i ==> #[trigger] char_eq_lower(s@[t], kw@[t]),
        decreases n - i,
    {
        let c = s.get_char(i);
        let k = kw.get_char(i);
        let cu = c as u32;
        let ku = k as u32;
        if !(cu == ku || (65 <= cu && cu <= 90 && cu + 32 == ku)) {
            proof {
                assert(!char_eq_lower(s@[i as int], kw@[i as int]));
            }
            return false;
        }
        i = i + 1;
    }
    true
}

impl ModelType {
    /// Which family a raw architecture name denotes: the name spells
    /// "gemma", "llama" or "phi" up to ASCII case, or the family is
    /// unsupported.
    pub open spec fn spec_from_name(s: Seq<char>) -> ModelType {
        if spells_keyword(s, "gemma"@) {
            ModelType::Gemma
        } else if spells_keyword(s, "llama"@) {
            ModelType::Llama
        } else if spells_keyword(s, "phi"@) {
            ModelType::Phi
        } else {
            ModelType::Other
        }
    }

    /// The family's canonical lower-case name.
    pub open spec fn spec_text(self) -> Seq<char> {
        match self {
            ModelType::Gemma => "gemma"@,
            ModelType::Llama => "llama"@,
            ModelType::Phi => "phi"@,
            ModelType::Other => "other"@,
        }
    }

    /// Renders the family's canonical lower-case name.
    pub fn as_text(&self) -> (r: String)
        ensures
            r@ == self.spec_text(),
    {
        match self {
            ModelType::Gemma => String::from_str("gemma"),
            ModelType::Llama => String::from_str("llama"),
            ModelType::Phi => String::from_str("phi"),
            ModelType::Other => String::from_str("other"),
        }
    }
}

impl<'a> From<&'a str> for ModelType {
    /// Parses an architecture name, ignoring ASCII case.
    fn from(s: &'a str) -> (r: ModelType) {
        if eq_keyword(s, "gemma") {
            ModelType::Gemma
        } else if eq_keyword(s, "llama") {
            ModelType::Llama
        } else if eq_keyword(s, "phi") {
            ModelType::Phi
        } else {
            ModelType::Other
        }
    }
}

impl<'a> vstd::std_specs::convert::FromSpecImpl<&'a str> for ModelType {
    open spec fn obeys_from_spec() -> bool {
        true
    }

    open spec fn from_spec(s: &'a str) -> ModelType {
        ModelType::spec_from_name(s@)
    }
}

/// The complete core configuration of a Gemma-style model, with every
/// field the constructor needs present and typed.
#[derive(Debug, Clone, PartialEq)]
pub struct CoreGemmaModelConfig {
    /// Vocabulary size.
    pub vocab_size: usize,
    /// Hidden width.
    pub hidden_size: usize,
    /// Width of the feed-forward intermediate layer.
    pub intermediate_size: usize,
    /// Number of decoder blocks.
    pub num_hidden_layers: usize,
    /// Number of attention heads.
    pub num_attention_heads: usize,
    /// Number of key/value heads.
    pub num_key_value_heads: usize,
    /// Longest supported sequence.
    pub max_position_embeddings: usize,
    /// Bit pattern of the RMS-norm epsilon.
    pub rms_norm_eps: u64,
    /// Bit pattern of the RoPE base theta.
    pub rope_theta: u64,
    /// Whether generation should use a key/value cache.
    pub use_cache: bool,
    /// The tensor element type the checkpoint was written with.
    pub torch_dtype: Option<String>,
    /// Always `None`: quantized checkpoints are unsupported.
    pub quantization_config: Option<QuantizationSettings>,
    /// Per-head feature width.
    pub head_dim: usize,
    /// End-of-sequence token id.
    pub eos_token_id: usize,
    /// Beginning-of-sequence token id.
    pub bos_token_id: usize,
    /// Padding token id; may be absent.
    pub pad_token_id: Option<usize>,
    /// The architecture family.
    pub model_type: ModelType,
}

/// A loaded model's family together with its core configuration.
#[derive(Debug, Clone)]
pub struct ModelInfo {
    /// The architecture family.
    pub model_type: ModelType,
    /// The core configuration.
    pub config: CoreGemmaModelConfig,
}

/// Text to append to a prompt: either given directly, or the path of a
/// file holding it.
#[derive(Debug, Clone, PartialEq)]
pub enum AppendedText {
    /// The text itself.
    Text(String),
    /// The path of a file holding the text.
    FilePath {
        /// Path of the file to read.
        path: String,
    },
}

} // verus!
