use gemma_core::error::BurnCoreError;
use gemma_core::rope::{RotaryPositionalEmbedding, RotaryPositionalEmbeddingConfig};
use gemma_core::tensor::{t4_from_bits, t4_to_bits};

fn bits(values: &[f32]) -> Vec<u32> {
    values.iter().map(|v| v.to_bits()).collect()
}

fn floats(bits: Vec<u32>) -> Vec<f32> {
    bits.into_iter().map(f32::from_bits).collect()
}

#[test]
fn test_rotary_construct_odd_dim_fails() {
    let config = RotaryPositionalEmbeddingConfig::new(5, 10000, 16);
    let result = RotaryPositionalEmbedding::new(config);
    assert!(matches!(result, Err(BurnCoreError::InvalidConfig(_))));
}

#[test]
fn test_rotary_construct_even_dim_succeeds() {
    let config = RotaryPositionalEmbeddingConfig::new(4, 10000, 16);
    assert!(RotaryPositionalEmbedding::new(config).is_ok());
}

#[test]
fn test_rotation_at_position_zero_is_identity() {
    // cos(0) = 1 and sin(0) = 0, so rotating at position 0 returns the
    // input unchanged, for every batch and head.
    let config = RotaryPositionalEmbeddingConfig::new(4, 10000, 8);
    let rope = RotaryPositionalEmbedding::new(config).unwrap();
    let q_vals = [1.5f32, -2.25, 0.5, 3.0, 0.25, -1.0, 2.0, -0.75];
    let k_vals = [0.5f32, 1.25, -0.5, 2.0];
    let q = t4_from_bits(bits(&q_vals), 1, 2, 1, 4);
    let k = t4_from_bits(bits(&k_vals), 1, 1, 1, 4);
    let positions = vec![0usize];
    let (q_rot, k_rot) = rope.forward(&q, &k, &positions).unwrap();
    let q_out = floats(t4_to_bits(&q_rot));
    let k_out = floats(t4_to_bits(&k_rot));
    for (a, b) in q_out.iter().zip(q_vals.iter()) {
        assert!((a - b).abs() < 1e-6, "{} vs {}", a, b);
    }
    for (a, b) in k_out.iter().zip(k_vals.iter()) {
        assert!((a - b).abs() < 1e-6, "{} vs {}", a, b);
    }
}

#[test]
fn test_rotation_at_later_position_changes_values() {
    // At position 1 the first pair rotates by a full radian: the output
    // must differ from the input, which guards the whole gather-and-rotate
    // pipeline against degenerating into a pass-through.
    let config = RotaryPositionalEmbeddingConfig::new(2, 10000, 8);
    let rope = RotaryPositionalEmbedding::new(config).unwrap();
    let vals = [1.0f32, 0.0];
    let q = t4_from_bits(bits(&vals), 1, 1, 1, 2);
    let k = t4_from_bits(bits(&vals), 1, 1, 1, 2);
    let positions = vec![1usize];
    let (q_rot, _) = rope.forward(&q, &k, &positions).unwrap();
    let out = floats(t4_to_bits(&q_rot));
    // Rotating (1, 0) by one radian gives (cos 1, sin 1).
    assert!((out[0] - 1.0f32.cos()).abs() < 1e-5);
    assert!((out[1] - 1.0f32.sin()).abs() < 1e-5);
}

#[test]
fn test_rotation_is_deterministic() {
    // Identical inputs always give identical outputs, bit for bit.
    let config = RotaryPositionalEmbeddingConfig::new(4, 10000, 32);
    let rope = RotaryPositionalEmbedding::new(config).unwrap();
    let vals = [0.1f32, -0.2, 0.3, -0.4, 0.5, -0.6, 0.7, -0.8];
    let positions = vec![3usize, 7];
    let q1 = t4_from_bits(bits(&vals), 1, 1, 2, 4);
    let k1 = t4_from_bits(bits(&vals), 1, 1, 2, 4);
    let q2 = t4_from_bits(bits(&vals), 1, 1, 2, 4);
    let k2 = t4_from_bits(bits(&vals), 1, 1, 2, 4);
    let (qa, ka) = rope.forward(&q1, &k1, &positions).unwrap();
    let (qb, kb) = rope.forward(&q2, &k2, &positions).unwrap();
    assert_eq!(t4_to_bits(&qa), t4_to_bits(&qb));
    assert_eq!(t4_to_bits(&ka), t4_to_bits(&kb));
}

#[test]
fn test_rotation_rejects_out_of_table_position() {
    let config = RotaryPositionalEmbeddingConfig::new(2, 10000, 4);
    let rope = RotaryPositionalEmbedding::new(config).unwrap();
    let vals = [1.0f32, 2.0];
    let q = t4_from_bits(bits(&vals), 1, 1, 1, 2);
    let k = t4_from_bits(bits(&vals), 1, 1, 1, 2);
    let positions = vec![4usize];
    let result = rope.forward(&q, &k, &positions);
    match result {
        Err(BurnCoreError::PositionOutOfBounds { position, max_len }) => {
            assert_eq!(position, 4);
            assert_eq!(max_len, 4);
        }
        other => panic!("expected PositionOutOfBounds, got {:?}", other.map(|_| ())),
    }
}

#[test]
fn test_rotation_rejects_wrong_width() {
    let config = RotaryPositionalEmbeddingConfig::new(4, 10000, 8);
    let rope = RotaryPositionalEmbedding::new(config).unwrap();
    let vals = [1.0f32, 2.0];
    let q = t4_from_bits(bits(&vals), 1, 1, 1, 2);
    let k = t4_from_bits(bits(&vals), 1, 1, 1, 2);
    let positions = vec![0usize];
    assert!(matches!(
        rope.forward(&q, &k, &positions),
        Err(BurnCoreError::IncompatibleShape(_))
    ));
}

#[test]
fn test_rotary_construct_with_empty_tables() {
    // Zero precomputed positions, or a zero (even) width, still
    // constructs: the tables are empty along one axis.
    let no_rows = RotaryPositionalEmbeddingConfig::new(4, 10000, 0);
    assert!(RotaryPositionalEmbedding::new(no_rows).is_ok());
    let no_cols = RotaryPositionalEmbeddingConfig::new(0, 10000, 8);
    assert!(RotaryPositionalEmbedding::new(no_cols).is_ok());
}
