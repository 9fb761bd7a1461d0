use phenix_db::MemorySubstrateError;

#[test]
fn error_kinds_carry_their_messages() {
    let cases = vec![
        MemorySubstrateError::PolynomialError("p".to_string()),
        MemorySubstrateError::GraphError("g".to_string()),
        MemorySubstrateError::CompressionError("c".to_string()),
        MemorySubstrateError::ConsensusError("n".to_string()),
        MemorySubstrateError::TierError("t".to_string()),
        MemorySubstrateError::LearningError("l".to_string()),
        MemorySubstrateError::ConcurrencyError("y".to_string()),
        MemorySubstrateError::InvariantViolation("i".to_string()),
    ];
    let expected = ["p", "g", "c", "n", "t", "l", "y", "i"];
    for (err, want) in cases.iter().zip(expected.iter()) {
        assert_eq!(err.message(), want);
    }
}

#[test]
fn only_invariant_violation_reports_as_such() {
    assert!(MemorySubstrateError::InvariantViolation("x".to_string()).is_invariant_violation());
    assert!(!MemorySubstrateError::GraphError("x".to_string()).is_invariant_violation());
}
