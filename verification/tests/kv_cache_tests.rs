use gemma_core::kv_cache::{KVCache, KVCacheError};
use gemma_core::tensor::{t4_from_bits, t4_to_bits};

fn bits(values: &[f32]) -> Vec<u32> {
    values.iter().map(|v| v.to_bits()).collect()
}

#[test]
fn test_cache_capacity_is_exact() {
    // With max_len = 3, three single-token appends succeed and the fourth
    // fails with PositionOutOfBounds.
    let mut cache = KVCache::new(1, 1, 3, 2);
    for step in 0..3usize {
        let k = t4_from_bits(bits(&[step as f32, 1.0]), 1, 1, 1, 2);
        let v = t4_from_bits(bits(&[2.0, step as f32]), 1, 1, 1, 2);
        let result = cache.update_and_get(&k, &v);
        assert!(result.is_ok(), "append {} should succeed", step);
        assert_eq!(cache.current_seq_length().unwrap(), step + 1);
    }
    let k = t4_from_bits(bits(&[9.0, 9.0]), 1, 1, 1, 2);
    let v = t4_from_bits(bits(&[9.0, 9.0]), 1, 1, 1, 2);
    match cache.update_and_get(&k, &v) {
        Err(KVCacheError::PositionOutOfBounds { position, max_len }) => {
            assert_eq!(position, 4);
            assert_eq!(max_len, 3);
        }
        other => panic!("expected PositionOutOfBounds, got {:?}", other),
    }
    // The failed append left the cache at its last valid state.
    assert_eq!(cache.current_seq_length().unwrap(), 3);
}

#[test]
fn test_cache_rejects_wrong_shape() {
    // A key/value block with a different head count or head width fails
    // with IncompatibleShape and never with a low-level fault.
    let mut cache = KVCache::new(1, 1, 8, 2);
    let k_wrong_heads = t4_from_bits(bits(&[1.0, 2.0, 3.0, 4.0]), 1, 2, 1, 2);
    let v_wrong_heads = t4_from_bits(bits(&[1.0, 2.0, 3.0, 4.0]), 1, 2, 1, 2);
    match cache.update_and_get(&k_wrong_heads, &v_wrong_heads) {
        Err(KVCacheError::IncompatibleShape {
            expected_dims,
            actual_dims,
        }) => {
            assert_eq!(expected_dims, vec![1, 1, usize::MAX, 2]);
            assert_eq!(actual_dims, vec![1, 2, 1, 2]);
        }
        other => panic!("expected IncompatibleShape, got {:?}", other),
    }
    let k_wrong_width = t4_from_bits(bits(&[1.0, 2.0, 3.0]), 1, 1, 1, 3);
    let v_wrong_width = t4_from_bits(bits(&[1.0, 2.0, 3.0]), 1, 1, 1, 3);
    assert!(matches!(
        cache.update_and_get(&k_wrong_width, &v_wrong_width),
        Err(KVCacheError::IncompatibleShape { .. })
    ));
    // A key and value that disagree with each other in sequence length
    // are rejected too: both histories must grow in step.
    let k_one = t4_from_bits(bits(&[1.0, 2.0]), 1, 1, 1, 2);
    let v_two = t4_from_bits(bits(&[1.0, 2.0, 3.0, 4.0]), 1, 1, 2, 2);
    assert!(matches!(
        cache.update_and_get(&k_one, &v_two),
        Err(KVCacheError::IncompatibleShape { .. })
    ));
    assert_eq!(cache.current_seq_length().unwrap(), 0);
}

#[test]
fn test_cache_append_concatenates_history() {
    let mut cache = KVCache::new(1, 1, 4, 2);
    let k1 = t4_from_bits(bits(&[1.0, 2.0]), 1, 1, 1, 2);
    let v1 = t4_from_bits(bits(&[5.0, 6.0]), 1, 1, 1, 2);
    cache.update_and_get(&k1, &v1).unwrap();
    let k2 = t4_from_bits(bits(&[3.0, 4.0]), 1, 1, 1, 2);
    let v2 = t4_from_bits(bits(&[7.0, 8.0]), 1, 1, 1, 2);
    let (k_full, v_full) = cache.update_and_get(&k2, &v2).unwrap();
    assert_eq!(t4_to_bits(&k_full), bits(&[1.0, 2.0, 3.0, 4.0]));
    assert_eq!(t4_to_bits(&v_full), bits(&[5.0, 6.0, 7.0, 8.0]));
    let (k_read, v_read) = cache.get_current_values().unwrap();
    assert_eq!(t4_to_bits(&k_read), bits(&[1.0, 2.0, 3.0, 4.0]));
    assert_eq!(t4_to_bits(&v_read), bits(&[5.0, 6.0, 7.0, 8.0]));
}

#[test]
fn test_reset_behaves_like_fresh_cache() {
    // After reset(), the length is 0 and an append behaves exactly as on
    // a freshly constructed cache with the same geometry.
    let mut used = KVCache::new(1, 2, 5, 2);
    let k = t4_from_bits(bits(&[1.0, 2.0, 3.0, 4.0]), 1, 2, 1, 2);
    let v = t4_from_bits(bits(&[5.0, 6.0, 7.0, 8.0]), 1, 2, 1, 2);
    used.update_and_get(&k, &v).unwrap();
    used.reset().unwrap();
    assert_eq!(used.current_seq_length().unwrap(), 0);
    assert_eq!(used.max_sequence_length(), 5);

    let mut fresh = KVCache::new(1, 2, 5, 2);
    let k2 = t4_from_bits(bits(&[9.0, 8.0, 7.0, 6.0]), 1, 2, 1, 2);
    let v2 = t4_from_bits(bits(&[5.0, 4.0, 3.0, 2.0]), 1, 2, 1, 2);
    let (ka, va) = used.update_and_get(&k2, &v2).unwrap();
    let (kb, vb) = fresh.update_and_get(&k2, &v2).unwrap();
    assert_eq!(t4_to_bits(&ka), t4_to_bits(&kb));
    assert_eq!(t4_to_bits(&va), t4_to_bits(&vb));
    assert_eq!(
        used.current_seq_length().unwrap(),
        fresh.current_seq_length().unwrap()
    );
}
