use vstd::prelude::*;

verus! {

/// Everything a pool operation can fail with.
#[derive(Clone, Copy, Debug, PartialEq, Eq, Structural)]
pub enum AmmError {
    /// The slope's numerator does not exceed its denominator.
    CapacityOutOfRelativeLimit,
    /// Numerator and denominator of the slope are fewer than five digits apart.
    ScaleTooLow,
    /// The priced supply does not exceed the base-asset capacity.
    CurveNotPositivelySloped,
    /// Twice the base-asset capacity does not exceed the priced supply.
    InterceptSignViolation,
    /// A swap of nothing was asked for.
    NoZeroInput,
    /// The trader holds less than the amount offered.
    InsufficientBalance,
    /// The trader's account is of another asset than the pool's reserve.
    AssetMismatch,
    /// The net output is below the minimum the trader accepts.
    SlippageExceeded,
    /// A step of the computation does not fit its integer width.
    MathOverflow,
    /// The pool no longer trades.
    PoolIsLocked,
}

} // verus!
