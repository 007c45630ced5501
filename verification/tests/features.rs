use omikuji_python::features::prepare_features;
use omikuji_python::features::sort_by_feature_index;
use omikuji_python::features::FeatureError;

#[test]
fn prepare_sorts_unordered_pairs() {
    let pairs: Vec<(u32, f32)> = vec![(7, 0.5), (2, 1.5), (4, -2.0)];
    let prepared = prepare_features(pairs, 10).unwrap();
    assert_eq!(prepared, vec![(2, 1.5), (4, -2.0), (7, 0.5)]);
}

#[test]
fn prepare_keeps_sorted_pairs() {
    let pairs: Vec<(u32, f32)> = vec![(0, 1.0), (3, 2.0), (9, 3.0)];
    assert_eq!(prepare_features(pairs.clone(), 10), Ok(pairs));
}

#[test]
fn prepare_accepts_empty_vector() {
    let pairs: Vec<(u32, f32)> = Vec::new();
    assert_eq!(prepare_features(pairs.clone(), 0), Ok(Vec::new()));
    assert_eq!(prepare_features(pairs, 5), Ok(Vec::new()));
}

#[test]
fn prepare_refuses_repeated_index() {
    let pairs: Vec<(u32, f32)> = vec![(3, 1.0), (1, 2.0), (3, 4.0)];
    assert_eq!(prepare_features(pairs, 10), Err(FeatureError::NotAscending));
}

#[test]
fn prepare_reports_repetition_before_range() {
    let pairs: Vec<(u32, f32)> = vec![(30, 1.0), (30, 2.0)];
    assert_eq!(prepare_features(pairs, 10), Err(FeatureError::NotAscending));
}

#[test]
fn prepare_refuses_index_at_dimension() {
    let pairs: Vec<(u32, f32)> = vec![(2, 1.0), (10, 2.0)];
    assert_eq!(prepare_features(pairs, 10), Err(FeatureError::OutOfRange));
    let pairs: Vec<(u32, f32)> = vec![(2, 1.0), (9, 2.0)];
    assert_eq!(prepare_features(pairs, 10), Ok(vec![(2, 1.0), (9, 2.0)]));
}

#[test]
fn prepare_refuses_any_index_when_dimension_is_zero() {
    let pairs: Vec<(u32, f32)> = vec![(0, 1.0)];
    assert_eq!(prepare_features(pairs, 0), Err(FeatureError::OutOfRange));
}

#[test]
fn prepare_takes_dimension_as_u32() {
    if usize::BITS == 64 {
        let n_features = ((1u64 << 32) + 5) as usize;
        let pairs: Vec<(u32, f32)> = vec![(4, 1.0)];
        assert_eq!(prepare_features(pairs, n_features), Ok(vec![(4, 1.0)]));
        let pairs: Vec<(u32, f32)> = vec![(6, 1.0)];
        assert_eq!(prepare_features(pairs, n_features), Err(FeatureError::OutOfRange));
    }
}

#[test]
fn prepare_accepts_largest_index() {
    let pairs: Vec<(u32, f32)> = vec![(u32::MAX - 1, 1.0), (0, 2.0)];
    assert_eq!(
        prepare_features(pairs, u32::MAX as usize),
        Ok(vec![(0, 2.0), (u32::MAX - 1, 1.0)])
    );
}

#[test]
fn prepare_is_idempotent() {
    let pairs: Vec<(u32, f32)> = vec![(5, 0.1), (1, 0.2), (3, 0.3), (0, 0.4)];
    let once = prepare_features(pairs, 6).unwrap();
    let twice = prepare_features(once.clone(), 6).unwrap();
    assert_eq!(once, twice);
}

#[test]
fn prepare_ignores_input_order() {
    let a: Vec<(u32, f32)> = vec![(5, 0.1), (1, 0.2), (3, 0.3)];
    let b: Vec<(u32, f32)> = vec![(3, 0.3), (5, 0.1), (1, 0.2)];
    assert_eq!(prepare_features(a, 6), prepare_features(b, 6));
    let a: Vec<(u32, f32)> = vec![(5, 0.1), (1, 0.2), (1, 0.3)];
    let b: Vec<(u32, f32)> = vec![(1, 0.3), (5, 0.1), (1, 0.2)];
    assert_eq!(prepare_features(a, 6), Err(FeatureError::NotAscending));
    assert_eq!(prepare_features(b, 6), Err(FeatureError::NotAscending));
}

#[test]
fn sort_is_stable() {
    let pairs: Vec<(u32, &str)> = vec![(2, "a"), (1, "b"), (2, "c"), (0, "d"), (1, "e")];
    let sorted = sort_by_feature_index(pairs);
    assert_eq!(sorted, vec![(0, "d"), (1, "b"), (1, "e"), (2, "a"), (2, "c")]);
}

#[test]
fn sort_of_reversed_input() {
    let pairs: Vec<(u32, u8)> = (0..50u32).rev().map(|i| (i, i as u8)).collect();
    let sorted = sort_by_feature_index(pairs);
    let expected: Vec<(u32, u8)> = (0..50u32).map(|i| (i, i as u8)).collect();
    assert_eq!(sorted, expected);
}

#[test]
fn feature_error_messages() {
    assert_eq!(
        FeatureError::NotAscending.message(),
        "Feature indices must be strictly ascending"
    );
    assert_eq!(FeatureError::OutOfRange.message(), "Feature index out of range");
}
