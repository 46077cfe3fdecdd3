use vstd::prelude::*;

verus! {

/// Scale of one whole unit of the quote asset.
pub const DECIMALS_S: u128 = 1_000_000_000;

/// Scale at which a derived curve stores its intercept.
pub const DECIMALS_BETA: u128 = 1_000_000_000;

} // verus!
