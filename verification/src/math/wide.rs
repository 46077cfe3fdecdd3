use spl_math::uint::U256;
use vstd::prelude::*;

verus! {

/// The first value that 256 bits cannot hold: 2^256.
pub open spec fn wide_limit() -> nat {
    0x1_0000_0000_0000_0000_0000_0000_0000_0000_0000_0000_0000_0000_0000_0000_0000_0000_0000_0000_0000_0000nat
}

/// Whether `x` can be held in 256 bits.
pub open spec fn fits_wide(x: nat) -> bool {
    x < wide_limit()
}

/// Whether `r` is the largest number whose square does not exceed `x`.
pub open spec fn is_isqrt(x: nat, r: nat) -> bool {
    r * r <= x < (r + 1) * (r + 1)
}

/// The largest number whose square does not exceed `x`.
pub open spec fn isqrt(x: nat) -> nat {
    choose|r: nat| is_isqrt(x, r)
}

/// An unsigned 256-bit integer as four 64-bit words, the least significant
/// first. Every combination of words is a value.
#[derive(Clone, Copy, Debug, PartialEq, Eq)]
pub struct Wide {
    pub limbs: [u64; 4],
}

impl View for Wide {
    type V = nat;

    /// The number that the four words spell.
    open spec fn view(&self) -> nat {
        (self.limbs@[0] as nat) + (self.limbs@[1] as nat) * 0x1_0000_0000_0000_0000nat
            + (self.limbs@[2] as nat) * 0x1_0000_0000_0000_0000_0000_0000_0000_0000nat
            + (self.limbs@[3] as nat)
            * 0x1_0000_0000_0000_0000_0000_0000_0000_0000_0000_0000_0000_0000nat
    }
}

impl Wide {
    /// The value made of the given words.
    pub fn from_limbs(limbs: [u64; 4]) -> (r: Wide)
        ensures
            r.limbs == limbs,
    {
        Wide { limbs }
    }
}

/// Calls `U256::from` on a 128-bit value. The source fills the two low words
/// with the value and leaves the others zero, so the number is unchanged.
#[verifier::external_body]
pub(crate) fn wide_from_u128(x: u128) -> (r: Wide)
    ensures
        r@ == x,
{
    Wide::from_limbs(U256::from(x).0)
}

/// Calls `u128::try_from` on a `U256`. The source fails exactly when one of
/// the two high words is not zero, and otherwise returns the low 128 bits.
#[verifier::external_body]
pub(crate) fn wide_to_u128(a: Wide) -> (r: Option<u128>)
    ensures
        r == if a@ <= u128::MAX { Some(a@ as u128) } else { None },
{
    u128::try_from(U256(a.limbs)).ok()
}

/// Calls `U256::checked_add`: the sum, or `None` where it needs more than
/// 256 bits.
#[verifier::external_body]
pub(crate) fn wide_checked_add(a: Wide, b: Wide) -> (r: Option<Wide>)
    ensures
        r is Some <==> fits_wide(a@ + b@),
        r is Some ==> r->Some_0@ == a@ + b@,
{
    U256(a.limbs).checked_add(U256(b.limbs)).map(|v| Wide::from_limbs(v.0))
}

/// Calls `U256::checked_sub`: the difference, or `None` where the second
/// value is the larger.
#[verifier::external_body]
pub(crate) fn wide_checked_sub(a: Wide, b: Wide) -> (r: Option<Wide>)
    ensures
        r is Some <==> b@ <= a@,
        r is Some ==> r->Some_0@ == a@ - b@,
{
    U256(a.limbs).checked_sub(U256(b.limbs)).map(|v| Wide::from_limbs(v.0))
}

/// Calls `U256::checked_mul`: the product, or `None` where it needs more than
/// 256 bits.
#[verifier::external_body]
pub(crate) fn wide_checked_mul(a: Wide, b: Wide) -> (r: Option<Wide>)
    ensures
        r is Some <==> fits_wide(a@ * b@),
        r is Some ==> r->Some_0@ == a@ * b@,
{
    U256(a.limbs).checked_mul(U256(b.limbs)).map(|v| Wide::from_limbs(v.0))
}

/// Calls `U256::checked_div`: the quotient rounded down, or `None` where the
/// divisor is zero.
#[verifier::external_body]
pub(crate) fn wide_checked_div(a: Wide, b: Wide) -> (r: Option<Wide>)
    ensures
        r is Some <==> b@ != 0,
        r is Some ==> r->Some_0@ == a@ / b@,
{
    U256(a.limbs).checked_div(U256(b.limbs)).map(|v| Wide::from_limbs(v.0))
}

/// Calls `U256::integer_sqrt`, documented as the highest `n` with
/// `n * n <= self`.
#[verifier::external_body]
pub(crate) fn wide_integer_sqrt(a: Wide) -> (r: Wide)
    ensures
        is_isqrt(a@, r@),
{
    Wide::from_limbs(U256(a.limbs).integer_sqrt().0)
}

/// Compares two `U256` with `<=`, which the source decides on the words from
/// the most significant down: the order of the numbers.
#[verifier::external_body]
pub(crate) fn wide_le(a: Wide, b: Wide) -> (r: bool)
    ensures
        r == (a@ <= b@),
{
    U256(a.limbs) <= U256(b.limbs)
}

/// Only one number has its square at or below `x` and its successor's above.
pub proof fn lemma_isqrt_unique(x: nat, r: nat)
    requires
        is_isqrt(x, r),
    ensures
        isqrt(x) == r,
{
    let s = isqrt(x);
    assert(is_isqrt(x, s));
    assert(s == r) by (nonlinear_arith)
        requires
            r * r <= x < (r + 1) * (r + 1),
            s * s <= x < (s + 1) * (s + 1),
    ;
}

} // verus!
