use sharpe_portfolio::statistics::{check_shape, StatsError};

#[test]
fn matching_table_is_accepted() {
    assert_eq!(check_shape(206, 206, 500), Ok(()));
    assert_eq!(check_shape(1, 1, 2), Ok(()));
}

#[test]
fn empty_universe_is_refused() {
    assert_eq!(check_shape(0, 0, 100), Err(StatsError::NoAssets));
}

#[test]
fn column_count_must_match_universe() {
    assert_eq!(check_shape(206, 205, 100), Err(StatsError::AssetCountMismatch));
    assert_eq!(check_shape(4, 5, 100), Err(StatsError::AssetCountMismatch));
}

#[test]
fn sample_covariance_needs_two_observations() {
    assert_eq!(check_shape(4, 4, 1), Err(StatsError::TooFewObservations));
    assert_eq!(check_shape(4, 4, 0), Err(StatsError::TooFewObservations));
}
