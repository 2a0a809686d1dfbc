use risk_normalization::normalization::NormalizationRun;
use risk_normalization::error::RiskNormalizationError;

#[test]
fn records_one_result_per_repetition() {
    let mut run: NormalizationRun<f64> = NormalizationRun::new(3, 4);
    assert!(run.has_pending());
    assert_eq!(run.paths(), 4);
    let returns = [
        vec![-1.0, 2.0, 3.0, 8.0],
        vec![0.0, 1.0, 1.0, 2.0],
        vec![5.0, 6.0, 7.0, 8.0],
    ];
    for (k, r) in returns.iter().enumerate() {
        assert_eq!(run.next_repetition(), k);
        assert_eq!(run.finish_repetition(0.5 + k as f64, r), Ok(()));
    }
    assert!(!run.has_pending());
    let (safe, car25) = run.into_results();
    assert_eq!(safe, vec![0.5, 1.5, 2.5]);
    assert_eq!(car25, vec![-1.0, 0.0, 5.0]);
}

#[test]
fn fails_without_simulated_paths() {
    let mut run: NormalizationRun<f64> = NormalizationRun::new(2, 0);
    let empty: Vec<f64> = Vec::new();
    assert_eq!(
        run.finish_repetition(1.25, &empty),
        Err(RiskNormalizationError::Car25Unavailable { repetition: 0 })
    );
    assert_eq!(run.next_repetition(), 0);
    assert!(run.has_pending());
}

#[test]
fn no_repetitions_give_empty_results() {
    let run: NormalizationRun<f64> = NormalizationRun::new(0, 10);
    assert!(!run.has_pending());
    let (safe, car25) = run.into_results();
    assert!(safe.is_empty());
    assert!(car25.is_empty());
}

#[test]
fn car25_of_many_paths() {
    let mut run: NormalizationRun<i64> = NormalizationRun::new(1, 10);
    let sorted: Vec<i64> = (0..10).map(|x| x * 10).collect();
    assert_eq!(run.finish_repetition(3, &sorted), Ok(()));
    let (safe, car25) = run.into_results();
    assert_eq!(safe, vec![3]);
    assert_eq!(car25, vec![20]);
}
