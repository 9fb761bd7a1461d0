use phenix_db::{MemorySubstrateError, Vector, SCALE};

#[test]
fn test_vector_creation() {
    let values = vec![1, 2, 3];
    let vector = Vector::new(values.clone()).unwrap();

    assert_eq!(vector.dimensions, 3);
    assert_eq!(vector.values, values);

    // The norm is the integer square root of 1 + 4 + 9 = 14.
    assert_eq!(vector.norm, 3);
    assert!(vector.norm * vector.norm <= 14);
    assert!(14 < (vector.norm + 1) * (vector.norm + 1));
}

#[test]
fn test_zeros() {
    let vector = Vector::zeros(5);
    assert_eq!(vector.dimensions, 5);
    assert_eq!(vector.values, vec![0; 5]);
    assert_eq!(vector.norm, 0);
}

#[test]
fn test_dot_product() {
    let v1 = Vector::new(vec![1, 2, 3]).unwrap();
    let v2 = Vector::new(vec![4, 5, 6]).unwrap();

    // 1*4 + 2*5 + 3*6 = 32
    let dot = v1.dot(&v2).unwrap();
    assert_eq!(dot, 32);
}

#[test]
fn test_cosine_similarity() {
    let v1 = Vector::new(vec![1, 0, 0]).unwrap();
    let v2 = Vector::new(vec![1, 0, 0]).unwrap();

    // Identical vectors have similarity 1.0.
    let sim = v1.cosine_similarity(&v2).unwrap();
    assert_eq!(sim, SCALE as i64);

    // Orthogonal vectors have similarity 0.0.
    let v3 = Vector::new(vec![0, 1, 0]).unwrap();
    let sim2 = v1.cosine_similarity(&v3).unwrap();
    assert_eq!(sim2, 0);
}

#[test]
fn test_euclidean_distance() {
    let v1 = Vector::new(vec![0, 0, 0]).unwrap();
    let v2 = Vector::new(vec![3, 4, 0]).unwrap();

    // Distance is 5 (3-4-5 triangle).
    let dist = v1.euclidean_distance(&v2).unwrap();
    assert_eq!(dist, 5);
}

#[test]
fn test_normalize() {
    let mut vector = Vector::new(vec![3, 4, 0]).unwrap();
    vector.normalize();

    // After normalization the norm is 1.0 on the fixed-point grid.
    assert_eq!(vector.norm, SCALE);

    // Values are scaled: [3/5, 4/5, 0] in SCALE units.
    assert_eq!(vector.values[0], 600_000);
    assert_eq!(vector.values[1], 800_000);
    assert_eq!(vector.values[2], 0);
}

#[test]
fn test_update_norm() {
    let mut vector = Vector::new(vec![1, 2, 3]).unwrap();
    let original_norm = vector.norm;

    // Modify values directly.
    vector.values[0] = 2;

    // The cached norm is stale until recomputed.
    assert_eq!(vector.norm, original_norm);

    // Update the norm: integer square root of 4 + 4 + 9 = 17.
    vector.update_norm();
    assert_eq!(vector.norm, 4);
}

#[test]
fn empty_vector_is_rejected() {
    match Vector::new(vec![]) {
        Err(e) => {
            assert!(e.is_invariant_violation());
            assert_eq!(e.message(), "vector values cannot be empty");
        }
        Ok(_) => panic!("an empty vector must be rejected"),
    }
}

#[test]
fn dimension_mismatch_is_rejected() {
    let v1 = Vector::new(vec![1, 2, 3]).unwrap();
    let v2 = Vector::new(vec![1, 2]).unwrap();
    assert!(matches!(
        v1.dot(&v2),
        Err(MemorySubstrateError::InvariantViolation(_))
    ));
    assert!(matches!(
        v1.euclidean_distance(&v2),
        Err(MemorySubstrateError::InvariantViolation(_))
    ));
    assert!(matches!(
        v1.cosine_similarity(&v2),
        Err(MemorySubstrateError::InvariantViolation(_))
    ));
}

#[test]
fn zero_norm_similarity_is_exactly_zero() {
    let zero = Vector::zeros(3);
    let v = Vector::new(vec![1, 2, 3]).unwrap();
    assert_eq!(zero.cosine_similarity(&v).unwrap(), 0);
    assert_eq!(v.cosine_similarity(&zero).unwrap(), 0);
    // Even with mismatched dimensions, a zero norm short-circuits.
    let zero2 = Vector::zeros(2);
    assert_eq!(zero2.cosine_similarity(&v).unwrap(), 0);
}

#[test]
fn cosine_self_similarity_is_one_for_larger_vectors() {
    let v = Vector::new(vec![250, -1000, 31, 4]).unwrap();
    let sim = v.cosine_similarity(&v).unwrap();
    // At least 1.0 exactly, above it only by integer-sqrt slack.
    assert!(sim >= SCALE as i64);
    assert!(sim < SCALE as i64 + 3000);
}

#[test]
fn normalized_leaves_original_untouched() {
    let v = Vector::new(vec![3, 4, 0]).unwrap();
    let unit = v.normalized();
    assert_eq!(v.values, vec![3, 4, 0]);
    assert_eq!(v.norm, 5);
    assert_eq!(unit.values, vec![600_000, 800_000, 0]);
    assert_eq!(unit.norm, SCALE);
}

#[test]
fn normalize_of_zero_vector_is_identity() {
    let mut zero = Vector::zeros(4);
    zero.normalize();
    assert_eq!(zero.values, vec![0; 4]);
    assert_eq!(zero.norm, 0);
}

#[test]
fn vector_equality_compares_components() {
    let a = Vector::new(vec![1, 2, 3]).unwrap();
    let b = Vector::new(vec![1, 2, 3]).unwrap();
    let c = Vector::new(vec![1, 2, 4]).unwrap();
    assert!(a == b);
    assert!(a != c);
}

#[test]
fn norm_matches_integer_square_root_of_sum_of_squares() {
    for values in [vec![7, 24, 0], vec![5, 12, 0], vec![1, 1, 1], vec![-6, 8, 0]] {
        let sum_sq: i64 = values.iter().map(|v| v * v).sum();
        let vector = Vector::new(values).unwrap();
        let n = vector.norm as i64;
        assert!(n * n <= sum_sq);
        assert!(sum_sq < (n + 1) * (n + 1));
    }
}
