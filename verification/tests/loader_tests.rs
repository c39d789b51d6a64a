use gemma_core::loader::{ModelLoader, BOS_TOKEN_ID_DEFAULT, EOS_TOKEN_ID_DEFAULT};
use gemma_core::loader_types::{CoreGemmaModelConfig, ModelType, RawModelConfig};
use gemma_core::model_error::ModelLoaderError;
use gemma_core::validation::ModelConfigValidator;

fn full_raw() -> RawModelConfig {
    RawModelConfig {
        vocab_size: Some(256000),
        hidden_size: Some(2048),
        intermediate_size: Some(16384),
        num_hidden_layers: Some(18),
        num_attention_heads: Some(8),
        num_key_value_heads: Some(1),
        max_position_embeddings: Some(8192),
        rms_norm_eps: Some(1.0e-6f64.to_bits()),
        rope_theta: Some(10000.0f64.to_bits()),
        use_cache: Some(true),
        torch_dtype: Some("float32".to_string()),
        model_type: Some("gemma".to_string()),
        eos_token_id: Some(1),
        bos_token_id: Some(2),
        pad_token_id: None,
        head_dim: Some(256),
    }
}

#[test]
fn test_model_type_parsing_ignores_case() {
    assert_eq!(ModelType::from("gemma"), ModelType::Gemma);
    assert_eq!(ModelType::from("GEMMA"), ModelType::Gemma);
    assert_eq!(ModelType::from("Llama"), ModelType::Llama);
    assert_eq!(ModelType::from("phi"), ModelType::Phi);
    assert_eq!(ModelType::from("mistral"), ModelType::Other);
    assert_eq!(ModelType::from(""), ModelType::Other);
    assert_eq!(ModelType::from("gemma2"), ModelType::Other);
}

#[test]
fn test_model_type_text() {
    assert_eq!(ModelType::Gemma.as_text(), "gemma");
    assert_eq!(ModelType::Llama.as_text(), "llama");
    assert_eq!(ModelType::Phi.as_text(), "phi");
    assert_eq!(ModelType::Other.as_text(), "other");
}

#[test]
fn test_convert_full_raw_config() {
    let raw = full_raw();
    let core = ModelLoader::convert_raw_config_to_core_config(&raw).unwrap();
    assert_eq!(core.vocab_size, 256000);
    assert_eq!(core.hidden_size, 2048);
    assert_eq!(core.intermediate_size, 16384);
    assert_eq!(core.num_hidden_layers, 18);
    assert_eq!(core.num_attention_heads, 8);
    assert_eq!(core.num_key_value_heads, 1);
    assert_eq!(core.max_position_embeddings, 8192);
    assert_eq!(core.rms_norm_eps, 1.0e-6f64.to_bits());
    assert_eq!(core.rope_theta, 10000.0f64.to_bits());
    assert_eq!(core.use_cache, true);
    assert_eq!(core.torch_dtype, Some("float32".to_string()));
    assert_eq!(core.quantization_config, None);
    assert_eq!(core.head_dim, 256);
    assert_eq!(core.eos_token_id, 1);
    assert_eq!(core.bos_token_id, 2);
    assert_eq!(core.pad_token_id, None);
    assert_eq!(core.model_type, ModelType::Gemma);
}

#[test]
fn test_convert_applies_defaults() {
    let raw = RawModelConfig {
        eos_token_id: None,
        bos_token_id: None,
        rope_theta: None,
        use_cache: None,
        torch_dtype: None,
        ..full_raw()
    };
    let core = ModelLoader::convert_raw_config_to_core_config(&raw).unwrap();
    assert_eq!(core.eos_token_id, EOS_TOKEN_ID_DEFAULT);
    assert_eq!(core.bos_token_id, BOS_TOKEN_ID_DEFAULT);
    assert_eq!(core.rope_theta, 10000.0f64.to_bits());
    assert_eq!(core.use_cache, true);
    assert_eq!(core.torch_dtype, None);
}

#[test]
fn test_convert_reports_missing_field() {
    let raw = RawModelConfig {
        vocab_size: None,
        ..full_raw()
    };
    assert!(matches!(
        ModelLoader::convert_raw_config_to_core_config(&raw),
        Err(ModelLoaderError::ConfigParsing { .. })
    ));
}

#[test]
fn test_validate_raw_config() {
    assert!(ModelConfigValidator::validate_raw_config(&full_raw()).is_ok());
    let missing = RawModelConfig {
        rms_norm_eps: None,
        ..full_raw()
    };
    assert!(matches!(
        ModelConfigValidator::validate_raw_config(&missing),
        Err(ModelLoaderError::InvalidConfig { .. })
    ));
    let unsupported = RawModelConfig {
        model_type: Some("mistral".to_string()),
        ..full_raw()
    };
    assert!(matches!(
        ModelConfigValidator::validate_raw_config(&unsupported),
        Err(ModelLoaderError::InvalidConfig { .. })
    ));
}

fn valid_core() -> CoreGemmaModelConfig {
    CoreGemmaModelConfig {
        vocab_size: 256000,
        hidden_size: 2048,
        intermediate_size: 16384,
        num_hidden_layers: 18,
        num_attention_heads: 8,
        num_key_value_heads: 2,
        max_position_embeddings: 8192,
        rms_norm_eps: 1.0e-6f64.to_bits(),
        rope_theta: 10000.0f64.to_bits(),
        use_cache: true,
        torch_dtype: None,
        quantization_config: None,
        head_dim: 256,
        eos_token_id: 1,
        bos_token_id: 2,
        pad_token_id: None,
        model_type: ModelType::Gemma,
    }
}

#[test]
fn test_validate_core_config() {
    assert!(ModelConfigValidator::validate_core_config(&valid_core()).is_ok());

    let bad_ratio = CoreGemmaModelConfig {
        num_key_value_heads: 3,
        ..valid_core()
    };
    assert!(matches!(
        ModelConfigValidator::validate_core_config(&bad_ratio),
        Err(ModelLoaderError::InvalidConfig { .. })
    ));

    let negative_eps = CoreGemmaModelConfig {
        rms_norm_eps: (-1.0f64).to_bits(),
        ..valid_core()
    };
    assert!(ModelConfigValidator::validate_core_config(&negative_eps).is_err());

    let zero_eps = CoreGemmaModelConfig {
        rms_norm_eps: 0.0f64.to_bits(),
        ..valid_core()
    };
    assert!(ModelConfigValidator::validate_core_config(&zero_eps).is_err());

    let wrong_head_dim = CoreGemmaModelConfig {
        head_dim: 128,
        ..valid_core()
    };
    assert!(ModelConfigValidator::validate_core_config(&wrong_head_dim).is_err());

    // A non-Gemma family does not demand head_dim == hidden / heads.
    let llama_head_dim = CoreGemmaModelConfig {
        head_dim: 128,
        model_type: ModelType::Llama,
        ..valid_core()
    };
    assert!(ModelConfigValidator::validate_core_config(&llama_head_dim).is_ok());
}

#[test]
fn test_validator_messages_join_every_problem() {
    let raw = RawModelConfig {
        vocab_size: None,
        hidden_size: None,
        model_type: Some("mistral".to_string()),
        ..full_raw()
    };
    match ModelConfigValidator::validate_raw_config(&raw) {
        Err(ModelLoaderError::InvalidConfig { message }) => assert_eq!(
            message,
            "missing required field: 'vocab_size'; missing required field: 'hidden_size'; \
             unsupported model_type"
        ),
        other => panic!("expected InvalidConfig, got {:?}", other),
    }

    let core = CoreGemmaModelConfig {
        vocab_size: 0,
        head_dim: 0,
        model_type: ModelType::Llama,
        ..valid_core()
    };
    match ModelConfigValidator::validate_core_config(&core) {
        Err(ModelLoaderError::InvalidConfig { message }) => assert_eq!(
            message,
            "vocab_size must not be zero; head_dim must not be zero"
        ),
        other => panic!("expected InvalidConfig, got {:?}", other),
    }
}

#[test]
fn test_validate_core_config_narrows_eps_to_single_precision() {
    // The model constructor consumes the epsilon in single precision: a
    // value positive in double precision but zero after narrowing is
    // rejected, one that survives the narrowing is accepted.
    assert_eq!(1.0e-60f64 as f32, 0.0);
    assert!(1.0e-45f64 as f32 > 0.0);
    let vanishing = CoreGemmaModelConfig {
        rms_norm_eps: 1.0e-60f64.to_bits(),
        ..valid_core()
    };
    assert!(ModelConfigValidator::validate_core_config(&vanishing).is_err());
    let surviving = CoreGemmaModelConfig {
        rms_norm_eps: 1.0e-45f64.to_bits(),
        ..valid_core()
    };
    assert!(ModelConfigValidator::validate_core_config(&surviving).is_ok());
}
