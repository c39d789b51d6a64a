use gemma_core::sampling::{GenerationConstraint, SamplingParams, StopTokens};

#[test]
fn test_sampling_params_deterministic() {
    let params = SamplingParams::deterministic();
    assert_eq!(params.temperature, Some(0.0f64.to_bits()));
    assert_eq!(params.top_k, Some(1));
    assert_eq!(params.top_p, None);
    let default_params = SamplingParams::default();
    assert_eq!(params.min_p, default_params.min_p);
    assert_eq!(params.repeat_penalty, default_params.repeat_penalty);
    assert_eq!(params.presence_penalty, default_params.presence_penalty);
    assert_eq!(params.logits_bias, default_params.logits_bias);
    assert_eq!(params.top_n_logprobs, default_params.top_n_logprobs);
    assert_eq!(params.seed, default_params.seed);
    assert_eq!(params.constraint, default_params.constraint);
}

#[test]
fn test_sampling_params_default_bit_patterns() {
    let params = SamplingParams::default();
    assert_eq!(params.temperature, Some(0.7f64.to_bits()));
    assert_eq!(params.top_p, Some(0.9f64.to_bits()));
    assert_eq!(params.top_k, Some(50));
    assert_eq!(params.min_p, None);
    assert_eq!(params.repeat_penalty, Some(1.1f32.to_bits()));
    assert_eq!(params.presence_penalty, None);
    assert_eq!(params.logits_bias, None);
    assert_eq!(params.top_n_logprobs, 0);
    assert_eq!(params.seed, Some(42));
    assert_eq!(params.constraint, GenerationConstraint::Unconstrained);
}

#[test]
fn test_stop_tokens_default_is_unset() {
    assert_eq!(StopTokens::default(), StopTokens::Unset);
}
