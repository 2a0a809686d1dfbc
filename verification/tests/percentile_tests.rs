use risk_normalization::percentile::car25_index;
use risk_normalization::percentile::select_car25;
use risk_normalization::error::RiskNormalizationError;

#[test]
fn car25_index_of_small_lists() {
    assert_eq!(car25_index(0), 0);
    assert_eq!(car25_index(1), 0);
    assert_eq!(car25_index(2), 0);
    assert_eq!(car25_index(3), 0);
    assert_eq!(car25_index(4), 0);
    assert_eq!(car25_index(5), 1);
    assert_eq!(car25_index(8), 1);
    assert_eq!(car25_index(9), 2);
}

#[test]
fn car25_index_matches_the_quarter_rounded_up() {
    for len in 1..2000usize {
        let expected = ((0.25 * len as f64).ceil() as usize).saturating_sub(1);
        assert_eq!(car25_index(len), expected);
    }
    assert_eq!(car25_index(100000), 24999);
    assert_eq!(car25_index(10000), 2499);
}

#[test]
fn car25_index_of_the_largest_length() {
    assert_eq!(car25_index(usize::MAX), usize::MAX / 4);
}

#[test]
fn select_car25_takes_the_quarter_entry() {
    let sorted = vec![-3.0, -1.0, 0.5, 2.0, 4.0, 7.5, 9.0, 12.0];
    assert_eq!(select_car25(&sorted, 0), Ok(-1.0));
    let sorted = vec![1.5];
    assert_eq!(select_car25(&sorted, 2), Ok(1.5));
    let sorted: Vec<u32> = (0..100).collect();
    assert_eq!(select_car25(&sorted, 0), Ok(24));
}

#[test]
fn select_car25_fails_without_returns() {
    let empty: Vec<f64> = Vec::new();
    assert_eq!(
        select_car25(&empty, 3),
        Err(RiskNormalizationError::Car25Unavailable { repetition: 3 })
    );
}
