use vstd::prelude::*;

verus! {

/// `a * b / d`, rounded down.
pub open spec fn mul_div_floor_spec(a: nat, b: nat, d: nat) -> nat
    recommends
        d > 0,
{
    (a * b) / d
}

/// `a * b / d`, rounded up.
pub open spec fn mul_div_ceil_spec(a: nat, b: nat, d: nat) -> nat
    recommends
        d > 0,
{
    ((a * b + d - 1) / (d as int)) as nat
}

/// The product of two 64-bit values leaves room for a 64-bit addend in 128 bits.
pub proof fn lemma_product_fits(a: u64, b: u64)
    ensures
        a * b + u64::MAX <= u128::MAX,
{
    assert(a * b <= 0xffff_ffff_ffff_ffff * 0xffff_ffff_ffff_ffff) by (nonlinear_arith)
        requires
            0 <= a <= 0xffff_ffff_ffff_ffff,
            0 <= b <= 0xffff_ffff_ffff_ffff,
    ;
}

/// `a * b / d` rounded down, or `None` where `d` is zero or the quotient
/// exceeds 64 bits.
pub fn mul_div_floor(a: u64, b: u64, d: u64) -> (r: Option<u64>)
    ensures
        r == if d == 0 || mul_div_floor_spec(a as nat, b as nat, d as nat) > u64::MAX {
            None
        } else {
            Some(mul_div_floor_spec(a as nat, b as nat, d as nat) as u64)
        },
{
    if d == 0 {
        return None;
    }
    proof {
        lemma_product_fits(a, b);
    }
    let q: u128 = (a as u128 * b as u128) / (d as u128);
    if q > u64::MAX as u128 {
        None
    } else {
        Some(q as u64)
    }
}

/// `a * b / d` rounded up, or `None` where `d` is zero or the quotient
/// exceeds 64 bits.
pub fn mul_div_ceil(a: u64, b: u64, d: u64) -> (r: Option<u64>)
    ensures
        r == if d == 0 || mul_div_ceil_spec(a as nat, b as nat, d as nat) > u64::MAX {
            None
        } else {
            Some(mul_div_ceil_spec(a as nat, b as nat, d as nat) as u64)
        },
{
    if d == 0 {
        return None;
    }
    proof {
        lemma_product_fits(a, b);
    }
    let q: u128 = (a as u128 * b as u128 + (d as u128 - 1)) / (d as u128);
    if q > u64::MAX as u128 {
        None
    } else {
        Some(q as u64)
    }
}

} // verus!
