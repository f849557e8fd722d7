use vstd::prelude::*;

verus! {

/// Why a table of per-period asset returns cannot yield the mean vector and
/// covariance matrix the optimizer runs on.
#[derive(Clone, Copy, Debug, PartialEq, Eq, Structural)]
pub enum StatsError {
    /// The asset universe is empty.
    NoAssets,
    /// The table has a different number of asset columns than the universe.
    AssetCountMismatch,
    /// Fewer than two observations: the sample covariance divides by one less
    /// than their number.
    TooFewObservations,
}

/// The verdict on a table of `columns` asset columns (the period column
/// excluded) and `observations` rows, for a universe of `assets` assets.
pub open spec fn shape_verdict(assets: nat, columns: nat, observations: nat) -> Result<
    (),
    StatsError,
> {
    if assets == 0 {
        Err(StatsError::NoAssets)
    } else if columns != assets {
        Err(StatsError::AssetCountMismatch)
    } else if observations < 2 {
        Err(StatsError::TooFewObservations)
    } else {
        Ok(())
    }
}

/// Checks once, when the statistics are loaded, that they fit the universe:
/// at least one asset, one column per asset and at least two observations.
/// Then the mean vector has `assets` entries and the covariance matrix is
/// `assets` by `assets`.
pub fn check_shape(assets: usize, columns: usize, observations: usize) -> (r: Result<
    (),
    StatsError,
>)
    ensures
        r == shape_verdict(assets as nat, columns as nat, observations as nat),
        r is Ok <==> assets > 0 && columns == assets && observations >= 2,
{
    if assets == 0 {
        Err(StatsError::NoAssets)
    } else if columns != assets {
        Err(StatsError::AssetCountMismatch)
    } else if observations < 2 {
        Err(StatsError::TooFewObservations)
    } else {
        Ok(())
    }
}

} // verus!
