use gemma_core::attention::{expand_kv_heads, GemmaAttention, GemmaAttentionConfig};
use gemma_core::error::BurnCoreError;
use gemma_core::kv_cache::KVCache;
use gemma_core::rope::RotaryPositionalEmbeddingConfig;
use gemma_core::tensor::{
    linear_from_parts, t2_from_bits, t3_from_bits, t3_shape, t3_to_bits, t4_from_bits, t4_to_bits,
    LinearLayer, Tensor4,
};

fn bits(values: &[f32]) -> Vec<u32> {
    values.iter().map(|v| v.to_bits()).collect()
}

fn floats(bits: Vec<u32>) -> Vec<f32> {
    bits.into_iter().map(f32::from_bits).collect()
}

fn square_linear(values: &[f32], n: usize) -> LinearLayer {
    linear_from_parts(t2_from_bits(bits(values), n, n), None)
}

fn identity2() -> LinearLayer {
    square_linear(&[1.0, 0.0, 0.0, 1.0], 2)
}

fn config_2x1() -> GemmaAttentionConfig {
    GemmaAttentionConfig {
        hidden_size: 2,
        num_attention_heads: 1,
        num_key_value_heads: 1,
        head_dim: 2,
        rope_config: RotaryPositionalEmbeddingConfig::new(2, 10000, 16),
        use_qk_norm: false,
        attention_dropout_prob_bits: 0,
        use_bias: false,
    }
}

#[test]
fn test_head_expansion_is_whole_block_tiling() {
    // Query head h reads key/value head h mod kv_heads: the kv-head axis
    // is tiled whole-block, [a, b] -> [a, b, a, b], not interleaved.
    let x = t4_from_bits(bits(&[10.0, 20.0]), 1, 2, 1, 1);
    let expanded = expand_kv_heads(&x, 2);
    assert_eq!(t4_to_bits(&expanded), bits(&[10.0, 20.0, 10.0, 20.0]));
}

#[test]
fn test_head_expansion_single_group_is_identity() {
    let x = t4_from_bits(bits(&[1.5, -2.5, 3.5, 4.5]), 1, 2, 1, 2);
    let expanded = expand_kv_heads(&x, 1);
    assert_eq!(t4_to_bits(&expanded), bits(&[1.5, -2.5, 3.5, 4.5]));
}

#[test]
fn test_group_count_matches_head_ratio() {
    // 8 query heads over 2 kv heads construct fine with 4 groups; over 3
    // kv heads construction fails with InvalidConfig.
    let base = GemmaAttentionConfig {
        hidden_size: 16,
        num_attention_heads: 8,
        num_key_value_heads: 2,
        head_dim: 2,
        rope_config: RotaryPositionalEmbeddingConfig::new(2, 10000, 16),
        use_qk_norm: false,
        attention_dropout_prob_bits: 0,
        use_bias: false,
    };
    let layer = base.init().unwrap();
    assert_eq!(layer.num_kv_groups(), 4);

    let bad = GemmaAttentionConfig {
        num_key_value_heads: 3,
        ..base
    };
    assert!(matches!(
        bad.init(),
        Err(BurnCoreError::InvalidConfig(_))
    ));
}

#[test]
fn test_equal_head_counts_give_one_group() {
    let config = GemmaAttentionConfig {
        hidden_size: 4,
        num_attention_heads: 2,
        num_key_value_heads: 2,
        head_dim: 2,
        rope_config: RotaryPositionalEmbeddingConfig::new(2, 10000, 16),
        use_qk_norm: false,
        attention_dropout_prob_bits: 0,
        use_bias: false,
    };
    let layer = config.init().unwrap();
    assert_eq!(layer.num_kv_groups(), 1);
}

#[test]
fn test_single_token_attention_passes_value_through() {
    // One token, one key: the softmax weight is exactly 1, so with
    // identity projections the output is the value vector, which is the
    // hidden state itself.
    let config = config_2x1();
    let layer = GemmaAttention::from_parts(
        &config,
        identity2(),
        identity2(),
        identity2(),
        identity2(),
    )
    .unwrap();
    let hs = t3_from_bits(bits(&[1.5, 2.5]), 1, 1, 2);
    let positions = vec![0usize];
    let mut cache: Option<KVCache> = None;
    let out = layer.forward(&hs, &positions, None, &mut cache).unwrap();
    let out_vals = floats(t3_to_bits(&out));
    assert!((out_vals[0] - 1.5).abs() < 1e-5);
    assert!((out_vals[1] - 2.5).abs() < 1e-5);
    assert_eq!(cache.unwrap().current_seq_length().unwrap(), 1);
}

#[test]
fn test_attention_weights_sum_to_one() {
    // The value projection maps every token to (1, 1) (zero weight, unit
    // bias), and the output projection is the identity: every output
    // entry is then the sum of that row's softmax weights, which must be
    // 1 within floating-point tolerance.
    let config = GemmaAttentionConfig {
        use_bias: true,
        ..config_2x1()
    };
    let v_proj = linear_from_parts(
        t2_from_bits(bits(&[0.0, 0.0, 0.0, 0.0]), 2, 2),
        Some(gemma_core::tensor::t1_from_bits(bits(&[1.0, 1.0]))),
    );
    let layer = GemmaAttention::from_parts(
        &config,
        square_linear(&[0.3, -0.2, 0.1, 0.4], 2),
        square_linear(&[-0.5, 0.2, 0.7, -0.1], 2),
        v_proj,
        identity2(),
    )
    .unwrap();
    let hs = t3_from_bits(
        bits(&[0.4, -0.3, 1.2, 0.8, -0.9, 0.1, 0.2, 0.6]),
        1,
        4,
        2,
    );
    let positions = vec![0usize, 1, 2, 3];
    let mut cache: Option<KVCache> = None;
    let out = layer.forward(&hs, &positions, None, &mut cache).unwrap();
    for w in floats(t3_to_bits(&out)) {
        assert!((w - 1.0).abs() < 1e-5, "weight sum was {}", w);
    }
}

#[test]
fn test_prefill_then_decode_extends_cache() {
    // A prefill of 3 tokens establishes a cache of length 3; a decode
    // step of one token extends it to 4, and the scores of that step are
    // taken against all 4 cached positions: a mask sized for 4 key
    // positions is accepted, one sized for 3 is not.
    let config = GemmaAttentionConfig {
        hidden_size: 4,
        num_attention_heads: 2,
        num_key_value_heads: 1,
        head_dim: 2,
        rope_config: RotaryPositionalEmbeddingConfig::new(2, 10000, 16),
        use_qk_norm: false,
        attention_dropout_prob_bits: 0,
        use_bias: false,
    };
    let q = linear_from_parts(t2_from_bits(bits(&[0.1f32; 16]), 4, 4), None);
    let k = linear_from_parts(t2_from_bits(bits(&[0.2f32; 8]), 4, 2), None);
    let v = linear_from_parts(t2_from_bits(bits(&[0.3f32; 8]), 4, 2), None);
    let o = linear_from_parts(t2_from_bits(bits(&[0.4f32; 16]), 4, 4), None);
    let layer = GemmaAttention::from_parts(&config, q, k, v, o).unwrap();

    let prefill = t3_from_bits(bits(&[0.5f32; 12]), 1, 3, 4);
    let mut cache: Option<KVCache> = None;
    let out = layer
        .forward(&prefill, &vec![0, 1, 2], None, &mut cache)
        .unwrap();
    assert_eq!(t3_shape(&out), (1, 3, 4));
    assert_eq!(cache.as_ref().unwrap().current_seq_length().unwrap(), 3);

    let decode = t3_from_bits(bits(&[0.7f32; 4]), 1, 1, 4);
    let wrong_mask: Tensor4 = t4_from_bits(bits(&[0.0f32; 3]), 1, 1, 1, 3);
    let err = layer.forward(&decode, &vec![3], Some(&wrong_mask), &mut cache);
    assert!(matches!(err, Err(BurnCoreError::IncompatibleShape(_))));
    assert_eq!(cache.as_ref().unwrap().current_seq_length().unwrap(), 3);

    let mask = t4_from_bits(bits(&[0.0f32; 4]), 1, 1, 1, 4);
    let out2 = layer
        .forward(&decode, &vec![3], Some(&mask), &mut cache)
        .unwrap();
    // The output keeps the [batch, seq, hidden] shape whatever the
    // accumulated cache length.
    assert_eq!(t3_shape(&out2), (1, 1, 4));
    assert_eq!(cache.as_ref().unwrap().current_seq_length().unwrap(), 4);
}

#[test]
fn test_additive_mask_changes_the_output() {
    // Suppressing one key position with a large negative additive mask
    // must change the weighted sum.
    let config = config_2x1();
    let layer = GemmaAttention::from_parts(
        &config,
        identity2(),
        identity2(),
        identity2(),
        identity2(),
    )
    .unwrap();
    let hs = t3_from_bits(bits(&[1.0, 0.0, 0.0, 2.0]), 1, 2, 2);
    let positions = vec![0usize, 1];
    let zero_mask = t4_from_bits(bits(&[0.0f32; 4]), 1, 1, 2, 2);
    let neg = -1.0e9f32;
    let blocking_mask = t4_from_bits(bits(&[0.0, neg, 0.0, neg]), 1, 1, 2, 2);
    let mut c1: Option<KVCache> = None;
    let mut c2: Option<KVCache> = None;
    let out_free = layer
        .forward(&hs, &positions, Some(&zero_mask), &mut c1)
        .unwrap();
    let out_masked = layer
        .forward(&hs, &positions, Some(&blocking_mask), &mut c2)
        .unwrap();
    assert_ne!(t3_to_bits(&out_free), t3_to_bits(&out_masked));
}

#[test]
fn test_forward_is_deterministic_in_one_process() {
    let config = config_2x1();
    let layer = GemmaAttention::from_parts(
        &config,
        square_linear(&[0.3, -0.2, 0.1, 0.4], 2),
        square_linear(&[-0.5, 0.2, 0.7, -0.1], 2),
        square_linear(&[0.6, 0.1, -0.3, 0.9], 2),
        square_linear(&[0.2, 0.8, -0.4, 0.5], 2),
    )
    .unwrap();
    let hs = t3_from_bits(bits(&[0.4, -0.3, 1.2, 0.8]), 1, 2, 2);
    let positions = vec![0usize, 1];
    let mut c1: Option<KVCache> = None;
    let mut c2: Option<KVCache> = None;
    let a = layer.forward(&hs, &positions, None, &mut c1).unwrap();
    let b = layer.forward(&hs, &positions, None, &mut c2).unwrap();
    assert_eq!(t3_to_bits(&a), t3_to_bits(&b));
}

#[test]
fn test_forward_rejects_wrong_hidden_width() {
    let config = config_2x1();
    let layer = config.init().unwrap();
    let hs = t3_from_bits(bits(&[1.0, 2.0, 3.0]), 1, 1, 3);
    let mut cache: Option<KVCache> = None;
    assert!(matches!(
        layer.forward(&hs, &vec![0], None, &mut cache),
        Err(BurnCoreError::IncompatibleShape(_))
    ));
    assert!(cache.is_none());
}

#[test]
fn test_multi_batch_grouped_attention_shapes() {
    // Two batches, two query heads over one kv head: exercises the
    // grouped expansion and the axis permutations away from the
    // degenerate batch-1 case.
    let config = GemmaAttentionConfig {
        hidden_size: 4,
        num_attention_heads: 2,
        num_key_value_heads: 1,
        head_dim: 2,
        rope_config: RotaryPositionalEmbeddingConfig::new(2, 10000, 16),
        use_qk_norm: false,
        attention_dropout_prob_bits: 0,
        use_bias: false,
    };
    let q = linear_from_parts(t2_from_bits(bits(&[0.11f32; 16]), 4, 4), None);
    let k = linear_from_parts(t2_from_bits(bits(&[0.23f32; 8]), 4, 2), None);
    let v = linear_from_parts(t2_from_bits(bits(&[0.31f32; 8]), 4, 2), None);
    let o = linear_from_parts(t2_from_bits(bits(&[0.43f32; 16]), 4, 4), None);
    let layer = GemmaAttention::from_parts(&config, q, k, v, o).unwrap();
    let hs_vals: Vec<f32> = (0..16).map(|i| 0.1 * (i as f32) - 0.7).collect();
    let hs = t3_from_bits(bits(&hs_vals), 2, 2, 4);
    let positions = vec![0usize, 1];
    let mut c1: Option<KVCache> = None;
    let out = layer.forward(&hs, &positions, None, &mut c1).unwrap();
    assert_eq!(t3_shape(&out), (2, 2, 4));
    assert_eq!(c1.as_ref().unwrap().current_seq_length().unwrap(), 2);
    let mut c2: Option<KVCache> = None;
    let again = layer.forward(&hs, &positions, None, &mut c2).unwrap();
    assert_eq!(t3_to_bits(&out), t3_to_bits(&again));
}

#[test]
fn test_forward_rejects_empty_sequence() {
    let layer = config_2x1().init().unwrap();
    let hs = t3_from_bits(Vec::new(), 1, 0, 2);
    let mut cache: Option<KVCache> = None;
    assert!(matches!(
        layer.forward(&hs, &Vec::new(), None, &mut cache),
        Err(BurnCoreError::IncompatibleShape(_))
    ));
    assert!(cache.is_none());
}
