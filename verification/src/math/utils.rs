use crate::math::wide::{fits_wide, wide_checked_div, wide_checked_mul, wide_from_u128, Wide};
use vstd::prelude::*;

verus! {

/// The numbers that a sequence of 256-bit values holds.
pub open spec fn wide_values(ws: Seq<Wide>) -> Seq<nat> {
    Seq::new(ws.len(), |i: int| ws[i]@)
}

/// The number that an optional 256-bit value holds.
pub open spec fn wide_option_value(w: Option<Wide>) -> Option<nat> {
    match w {
        Some(x) => Some(x@),
        None => None,
    }
}

/// `acc` taken through the factors from position `i` on: at each position it
/// is multiplied by the numerator there, if there is one, and then divided by
/// the denominator there, if there is one, rounding down. `None` where a
/// product exceeds 256 bits or a denominator is zero.
pub open spec fn mul_div_from(acc: nat, numerators: Seq<nat>, denominators: Seq<nat>, i: nat)
    -> Option<nat>
    decreases numerators.len() + denominators.len() - i,
{
    if i >= numerators.len() && i >= denominators.len() {
        Some(acc)
    } else {
        let grown = if i < numerators.len() {
            acc * numerators[i as int]
        } else {
            acc
        };
        if !fits_wide(grown) || (i < denominators.len() && denominators[i as int] == 0) {
            None
        } else {
            let reduced = if i < denominators.len() {
                grown / denominators[i as int]
            } else {
                grown
            };
            mul_div_from(reduced, numerators, denominators, i + 1)
        }
    }
}

/// The product of the numerators over the product of the denominators, taken
/// pair by pair from one so that each product is divided down at once.
pub open spec fn multiply_divide_spec(numerators: Seq<nat>, denominators: Seq<nat>) -> Option<nat> {
    mul_div_from(1, numerators, denominators, 0)
}

/// Multiplies by each numerator and divides by the denominator at the same
/// position in turn, so that no intermediate grows by more than one factor.
pub fn multiply_divide(numerators: Vec<Wide>, denominators: Vec<Wide>) -> (r: Option<Wide>)
    ensures
        wide_option_value(r) == multiply_divide_spec(
            wide_values(numerators@),
            wide_values(denominators@),
        ),
{
    let ghost ns = wide_values(numerators@);
    let ghost ds = wide_values(denominators@);
    let mut acc: Wide = wide_from_u128(1);
    let mut i: usize = 0;
    while i < numerators.len() || i < denominators.len()
        invariant
            ns == wide_values(numerators@),
            ds == wide_values(denominators@),
            mul_div_from(acc@, ns, ds, i as nat) == multiply_divide_spec(ns, ds),
        decreases numerators.len() + denominators.len() - i,
    {
        if i < numerators.len() {
            match wide_checked_mul(acc, numerators[i]) {
                Some(grown) => {
                    acc = grown;
                },
                None => {
                    return None;
                },
            }
        }
        if i < denominators.len() {
            match wide_checked_div(acc, denominators[i]) {
                Some(reduced) => {
                    acc = reduced;
                },
                None => {
                    return None;
                },
            }
        }
        i = i + 1;
    }
    Some(acc)
}

} // verus!
