use crate::err::AmmError;
use crate::libraries::full_math::{mul_div_ceil, mul_div_ceil_spec};
use vstd::prelude::*;

verus! {

/// Rate charged on the base asset: nothing.
pub const MEME_FEE: u64 = 0;

/// Rate charged on the quote asset: one percent.
pub const FEE: u64 = 10_000_000;

/// The rate that stands for the whole amount.
pub const FEE_PRECISION: u64 = 1_000_000_000;

/// The fee on `x` at rate `percent`: `x * percent / FEE_PRECISION`, rounded up.
pub open spec fn fee_spec(x: nat, percent: nat) -> nat {
    mul_div_ceil_spec(x, percent, FEE_PRECISION as nat)
}

/// The two rates of a pool, each a fraction of `FEE_PRECISION`.
#[derive(Clone, Copy, Debug, PartialEq, Eq, Structural)]
pub struct Fees {
    pub fee_meme_percent: u64,
    pub fee_quote_percent: u64,
}

impl Fees {
    /// No rate takes more than the whole amount.
    pub open spec fn wf(&self) -> bool {
        &&& self.fee_meme_percent <= FEE_PRECISION
        &&& self.fee_quote_percent <= FEE_PRECISION
    }

    /// The fee on an amount of the base asset.
    pub fn get_fee_meme_amount(&self, amount: u64) -> (r: Result<u64, AmmError>)
        ensures
            r == fee_result(amount, self.fee_meme_percent),
    {
        get_fee_amount(amount, self.fee_meme_percent)
    }

    /// The fee on an amount of the quote asset.
    pub fn get_fee_quote_amount(&self, amount: u64) -> (r: Result<u64, AmmError>)
        ensures
            r == fee_result(amount, self.fee_quote_percent),
    {
        get_fee_amount(amount, self.fee_quote_percent)
    }
}

impl Default for Fees {
    fn default() -> (r: Self)
        ensures
            r.fee_meme_percent == 0,
            r.fee_quote_percent == 0,
    {
        Fees { fee_meme_percent: 0, fee_quote_percent: 0 }
    }
}

/// What `get_fee_amount` returns: the fee, or `MathOverflow` where it exceeds
/// 64 bits.
pub open spec fn fee_result(x: u64, percent: u64) -> Result<u64, AmmError> {
    if fee_spec(x as nat, percent as nat) <= u64::MAX {
        Ok(fee_spec(x as nat, percent as nat) as u64)
    } else {
        Err(AmmError::MathOverflow)
    }
}

/// The fee on `x` at rate `percent`, rounded up to a whole unit.
pub fn get_fee_amount(x: u64, percent: u64) -> (r: Result<u64, AmmError>)
    ensures
        r == fee_result(x, percent),
        percent <= FEE_PRECISION ==> r is Ok && r->Ok_0 <= x,
{
    proof {
        if percent <= FEE_PRECISION {
            lemma_fee_at_most_amount(x as nat, percent as nat);
        }
    }
    match mul_div_ceil(x, percent, FEE_PRECISION) {
        Some(fee) => Ok(fee),
        None => Err(AmmError::MathOverflow),
    }
}

/// A larger amount never pays a smaller fee at the same rate.
pub proof fn lemma_fee_monotone(x1: nat, x2: nat, percent: nat)
    requires
        x1 <= x2,
    ensures
        fee_spec(x1, percent) <= fee_spec(x2, percent),
{
    let p = FEE_PRECISION as int;
    assert(x1 * percent <= x2 * percent) by (nonlinear_arith)
        requires
            x1 <= x2,
    ;
    vstd::arithmetic::div_mod::lemma_div_is_ordered(
        x1 * percent + p - 1,
        x2 * percent + p - 1,
        p,
    );
}

/// At a rate of at most the whole, the fee does not exceed the amount.
pub proof fn lemma_fee_at_most_amount(x: nat, percent: nat)
    requires
        percent <= FEE_PRECISION,
    ensures
        fee_spec(x, percent) <= x,
{
    let p = FEE_PRECISION as int;
    assert(x * percent <= x * p) by (nonlinear_arith)
        requires
            percent <= p,
            0 <= x,
    ;
    vstd::arithmetic::div_mod::lemma_div_is_ordered(x * percent + p - 1, x * p + p - 1, p);
    assert((x * p + p - 1) / p == x) by (nonlinear_arith)
        requires
            p > 0,
            0 <= x,
    ;
}

} // verus!
