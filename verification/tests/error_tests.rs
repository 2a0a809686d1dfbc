use risk_normalization::error::RiskNormalizationError;

#[test]
fn message_counts_repetitions_from_one() {
    let e = RiskNormalizationError::Car25Unavailable { repetition: 0 };
    assert_eq!(e.message(), "Failed to compute CAR25 for repetition 1");
    let e = RiskNormalizationError::Car25Unavailable { repetition: 9 };
    assert_eq!(e.message(), "Failed to compute CAR25 for repetition 10");
    let e = RiskNormalizationError::Car25Unavailable { repetition: 1234 };
    assert_eq!(e.message(), "Failed to compute CAR25 for repetition 1235");
}

#[test]
fn message_of_the_largest_repetition() {
    let e = RiskNormalizationError::Car25Unavailable { repetition: usize::MAX };
    let expected = format!(
        "Failed to compute CAR25 for repetition {}",
        usize::MAX as u128 + 1
    );
    assert_eq!(e.message(), expected);
}

#[test]
fn display_text_names_the_error() {
    let e = RiskNormalizationError::Car25Unavailable { repetition: 4 };
    assert_eq!(
        e.to_display_string(),
        "RiskNormalizationError: Failed to compute CAR25 for repetition 5"
    );
}

#[test]
fn message_digits_match_decimal_formatting() {
    for r in [0usize, 1, 8, 9, 10, 99, 100, 101, 999_999, 1_000_000_007] {
        let e = RiskNormalizationError::Car25Unavailable { repetition: r };
        assert_eq!(
            e.message(),
            format!("Failed to compute CAR25 for repetition {}", r + 1)
        );
    }
}
