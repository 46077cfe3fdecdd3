use crate::consts::DECIMALS_S;
use crate::math::utils::{multiply_divide, multiply_divide_spec, wide_option_value, wide_values};
use crate::math::wide::{
    fits_wide, isqrt, lemma_isqrt_unique, wide_checked_add, wide_checked_div,
    wide_checked_mul, wide_checked_sub, wide_from_u128, wide_integer_sqrt, wide_to_u128, Wide,
};
use vstd::prelude::*;

verus! {

/// The base-asset amount between two quote-reserve levels by the direct
/// formula, every step in 128 bits:
/// `(s_b - s_a) * beta / (beta_decimals * DECIMALS_S)`
/// plus `(s_b^2 - s_a^2) * alpha_abs / DECIMALS_S^2 / (2 * alpha_decimals)`,
/// each quotient rounded down. `None` where `s_b < s_a`, a divisor is zero or
/// a step exceeds 128 bits.
pub open spec fn delta_m1_spec(
    alpha_abs: u128,
    beta: u128,
    alpha_decimals: u128,
    beta_decimals: u128,
    s_a: u128,
    s_b: u128,
) -> Option<u128> {
    let ds = DECIMALS_S as int;
    let left_num = (s_b - s_a) * beta;
    let left_denom = beta_decimals * ds;
    let scaled = (s_b * s_b - s_a * s_a) * alpha_abs;
    let left = left_num / left_denom;
    let right = scaled / (ds * ds) / (2 * alpha_decimals);
    if s_b < s_a || left_num > u128::MAX || left_denom > u128::MAX || left_denom == 0 || s_b * s_b
        > u128::MAX || scaled > u128::MAX || 2 * alpha_decimals > u128::MAX || alpha_decimals == 0
        || left + right > u128::MAX {
        None
    } else {
        Some((left + right) as u128)
    }
}

/// The same amount over one common denominator, every step in 256 bits:
/// `(2 * beta * DECIMALS_S * alpha_decimals * (s_b - s_a)
///   + alpha_abs * beta_decimals * (s_b^2 - s_a^2))
///  / (2 * alpha_decimals * beta_decimals * DECIMALS_S^2)`, rounded down.
/// `None` where `s_b < s_a`, the denominator is zero, a step exceeds 256 bits
/// or the quotient exceeds 128 bits.
pub open spec fn delta_m2_spec(
    alpha_abs: u128,
    beta: u128,
    alpha_decimals: u128,
    beta_decimals: u128,
    s_a: u128,
    s_b: u128,
) -> Option<u128> {
    let ds = DECIMALS_S as nat;
    let span = (s_b - s_a) as nat;
    let lead = ((beta as nat * 2) * ds) * (alpha_decimals as nat);
    let left = lead * span;
    let diff = (s_b * s_b - s_a * s_a) as nat;
    let right = (alpha_abs as nat * beta_decimals as nat) * diff;
    let half = (2 * alpha_decimals as nat) * (beta_decimals as nat);
    let denom = half * (ds * ds);
    if s_b < s_a || !fits_wide(lead) || !fits_wide(left) || !fits_wide(right) || !fits_wide(
        left + right,
    ) || !fits_wide(half) || !fits_wide(denom) || denom == 0 || (left + right) / denom
        > u128::MAX {
        None
    } else {
        Some(((left + right) / denom) as u128)
    }
}

/// A product of two 128-bit values fits 256 bits.
pub proof fn lemma_product_fits_wide(a: nat, b: nat)
    requires
        a <= u128::MAX,
        b <= u128::MAX,
    ensures
        fits_wide(a * b),
{
    assert(a * b <= 0xffff_ffff_ffff_ffff_ffff_ffff_ffff_ffff * 0xffff_ffff_ffff_ffff_ffff_ffff_ffff_ffff)
        by (nonlinear_arith)
        requires
            a <= 0xffff_ffff_ffff_ffff_ffff_ffff_ffff_ffff,
            b <= 0xffff_ffff_ffff_ffff_ffff_ffff_ffff_ffff,
    ;
}

/// Squares keep the order of natural numbers.
pub proof fn lemma_square_ordered(a: nat, b: nat)
    requires
        a <= b,
    ensures
        a * a <= b * b,
{
    assert(a * a <= b * b) by (nonlinear_arith)
        requires
            a <= b,
    ;
}

/// The direct formula in 128-bit arithmetic.
pub fn delta_m1_positive_strategy(
    alpha_abs: u128,
    beta: u128,
    alpha_decimals: u128,
    beta_decimals: u128,
    s_a: u128,
    s_b: u128,
) -> (r: Option<u128>)
    ensures
        r == delta_m1_spec(alpha_abs, beta, alpha_decimals, beta_decimals, s_a, s_b),
{
    let span: u128 = s_b.checked_sub(s_a)?;
    let left_num: u128 = span.checked_mul(beta)?;
    let left_denom: u128 = beta_decimals.checked_mul(DECIMALS_S)?;
    let left: u128 = left_num.checked_div(left_denom)?;
    let s_b_squared: u128 = s_b.checked_mul(s_b)?;
    proof {
        lemma_square_ordered(s_a as nat, s_b as nat);
    }
    let s_a_squared: u128 = s_a.checked_mul(s_a)?;
    let power_diff: u128 = s_b_squared.checked_sub(s_a_squared)?;
    let decimals_s_squared: u128 = DECIMALS_S.checked_mul(DECIMALS_S)?;
    let scaled: u128 = power_diff.checked_mul(alpha_abs)?;
    let double_decimals: u128 = alpha_decimals.checked_mul(2)?;
    let right: u128 = scaled.checked_div(decimals_s_squared)?.checked_div(double_decimals)?;
    left.checked_add(right)
}

/// The single-quotient formula in 256-bit arithmetic.
pub fn delta_m2_positive_strategy(
    alpha_abs: u128,
    beta: u128,
    alpha_decimals: u128,
    beta_decimals: u128,
    s_a: u128,
    s_b: u128,
) -> (r: Option<u128>)
    ensures
        r == delta_m2_spec(alpha_abs, beta, alpha_decimals, beta_decimals, s_a, s_b),
{
    let decimals_s: Wide = wide_from_u128(DECIMALS_S);
    let two: Wide = wide_from_u128(2);
    let w_alpha_decimals: Wide = wide_from_u128(alpha_decimals);
    let w_beta_decimals: Wide = wide_from_u128(beta_decimals);
    let w_s_a: Wide = wide_from_u128(s_a);
    let w_s_b: Wide = wide_from_u128(s_b);

    let span: Wide = wide_checked_sub(w_s_b, w_s_a)?;
    let lead: Wide = wide_checked_mul(
        wide_checked_mul(wide_checked_mul(wide_from_u128(beta), two)?, decimals_s)?,
        w_alpha_decimals,
    )?;
    let left: Wide = wide_checked_mul(lead, span)?;

    proof {
        lemma_product_fits_wide(s_b as nat, s_b as nat);
        lemma_product_fits_wide(s_a as nat, s_a as nat);
        lemma_square_ordered(s_a as nat, s_b as nat);
        lemma_product_fits_wide(alpha_abs as nat, beta_decimals as nat);
    }
    let s_b_squared: Wide = wide_checked_mul(w_s_b, w_s_b)?;
    let s_a_squared: Wide = wide_checked_mul(w_s_a, w_s_a)?;
    let power_diff: Wide = wide_checked_sub(s_b_squared, s_a_squared)?;
    let right: Wide = wide_checked_mul(
        wide_checked_mul(wide_from_u128(alpha_abs), w_beta_decimals)?,
        power_diff,
    )?;

    let half: Wide = wide_checked_mul(wide_checked_mul(two, w_alpha_decimals)?, w_beta_decimals)?;
    let denom: Wide = wide_checked_mul(half, wide_checked_mul(decimals_s, decimals_s)?)?;

    let total: Wide = wide_checked_add(left, right)?;
    wide_to_u128(wide_checked_div(total, denom)?)
}

/// How often the root under the quadratic is tried again at a coarser scale
/// before the solver gives up.
pub const MAX_RESCALES: u32 = 38;

/// The root term at one scale: the square root of
/// `(u / scale) * u * alpha_decimals + (v / scale) * v * w`, rounded down, times
/// the square root of `scale`, rounded down. `None` where `scale` is zero or a
/// step exceeds 256 bits.
pub open spec fn root_at_scale(u: nat, alpha_decimals: nat, w: nat, v: nat, scale: nat) -> Option<
    nat,
> {
    let u_part = (u / scale) * u;
    let left = u_part * alpha_decimals;
    let v_part = (v / scale) * v;
    let right = v_part * w;
    let root = isqrt(left + right) * isqrt(scale);
    if scale == 0 || !fits_wide(u_part) || !fits_wide(left) || !fits_wide(v_part) || !fits_wide(
        right,
    ) || !fits_wide(left + right) || !fits_wide(root) {
        None
    } else {
        Some(root)
    }
}

/// The root term at the first scale at which it can be computed, starting
/// from `scale` and going a hundredfold coarser at most `retries` times.
/// `None` where every scale tried fails or the next scale exceeds 256 bits.
pub open spec fn adaptive_root(
    u: nat,
    alpha_decimals: nat,
    w: nat,
    v: nat,
    scale: nat,
    retries: nat,
) -> Option<nat>
    decreases retries,
{
    match root_at_scale(u, alpha_decimals, w, v, scale) {
        Some(root) => Some(root),
        None => if retries == 0 || !fits_wide(scale * 100) {
            None
        } else {
            adaptive_root(u, alpha_decimals, w, v, scale * 100, (retries - 1) as nat)
        },
    }
}

/// The quote-reserve change that goes with a base-asset amount `delta_m` at
/// quote-reserve level `s_b`: the positive solution of the curve's quadratic,
/// every step in 256 bits. With
/// `u = 2 * alpha_abs * s_b * beta_decimals + 2 * beta * alpha_decimals * DECIMALS_S`,
/// `v = alpha_decimals * beta_decimals * DECIMALS_S`, `w = 8 * delta_m * alpha_abs`,
/// `a` the root term of `u`, `v`, `w` and `b` the square root of
/// `v^2 * alpha_decimals`, it is
/// `DECIMALS_S * alpha_decimals * a * v / (2 * alpha_abs * b * v)` less
/// `DECIMALS_S * alpha_decimals * u * b / (2 * alpha_abs * b * v)`, each taken
/// factor by factor. `None` where a step exceeds 256 bits, a divisor is zero,
/// the difference is negative or it exceeds 128 bits.
pub open spec fn delta_s_spec(
    alpha_abs: u128,
    beta: u128,
    alpha_decimals: u128,
    beta_decimals: u128,
    s_b: u128,
    delta_m: u128,
) -> Option<u128> {
    let ds = DECIMALS_S as nat;
    let u_slope = (2 * alpha_abs as nat) * (s_b as nat);
    let u_left = u_slope * (beta_decimals as nat);
    let u_base = (2 * beta as nat) * (alpha_decimals as nat);
    let u_right = u_base * ds;
    let u = u_left + u_right;
    let v = (alpha_decimals as nat * beta_decimals as nat) * ds;
    let w = (8 * delta_m as nat) * (alpha_abs as nat);
    let v_squared = v * v;
    let b = isqrt(v_squared * (alpha_decimals as nat));
    if !fits_wide(u_slope) || !fits_wide(u_left) || !fits_wide(u_base) || !fits_wide(u_right)
        || !fits_wide(u) || !fits_wide(v) || !fits_wide(w) || !fits_wide(v_squared) || !fits_wide(
        v_squared * (alpha_decimals as nat),
    ) {
        None
    } else {
        match adaptive_root(u, alpha_decimals as nat, w, v, 1, MAX_RESCALES as nat) {
            None => None,
            Some(a) => {
                let denominators = seq![2nat, alpha_abs as nat, b, v];
                match (
                    multiply_divide_spec(seq![ds, alpha_decimals as nat, a, v], denominators),
                    multiply_divide_spec(seq![ds, alpha_decimals as nat, u, b], denominators),
                ) {
                    (Some(left), Some(right)) => if left < right || left - right > u128::MAX {
                        None
                    } else {
                        Some((left - right) as u128)
                    },
                    _ => None,
                }
            },
        }
    }
}

/// One attempt at the root term, at the given scale.
fn root_at(u: Wide, alpha_decimals: Wide, w: Wide, v: Wide, scale: Wide) -> (r: Option<Wide>)
    ensures
        wide_option_value(r) == root_at_scale(u@, alpha_decimals@, w@, v@, scale@),
{
    let left: Wide = wide_checked_mul(
        wide_checked_mul(wide_checked_div(u, scale)?, u)?,
        alpha_decimals,
    )?;
    let right: Wide = wide_checked_mul(wide_checked_mul(wide_checked_div(v, scale)?, v)?, w)?;
    let sum: Wide = wide_checked_add(left, right)?;
    let root: Wide = wide_integer_sqrt(sum);
    let scale_root: Wide = wide_integer_sqrt(scale);
    proof {
        lemma_isqrt_unique(sum@, root@);
        lemma_isqrt_unique(scale@, scale_root@);
    }
    wide_checked_mul(root, scale_root)
}

/// The root term under the quadratic. Where it cannot be computed at full
/// precision it is tried again at a scale a hundred times coarser, at most
/// `MAX_RESCALES` times.
pub fn compute_a_positive(u: Wide, alpha_decimals: Wide, w: Wide, v: Wide) -> (r: Option<Wide>)
    ensures
        wide_option_value(r) == adaptive_root(
            u@,
            alpha_decimals@,
            w@,
            v@,
            1,
            MAX_RESCALES as nat,
        ),
{
    let hundred: Wide = wide_from_u128(100);
    let mut scale: Wide = wide_from_u128(1);
    let mut retries: u32 = MAX_RESCALES;
    loop
        invariant
            hundred@ == 100,
            retries <= MAX_RESCALES,
            adaptive_root(u@, alpha_decimals@, w@, v@, scale@, retries as nat) == adaptive_root(
                u@,
                alpha_decimals@,
                w@,
                v@,
                1,
                MAX_RESCALES as nat,
            ),
        decreases retries,
    {
        match root_at(u, alpha_decimals, w, v, scale) {
            Some(root) => {
                return Some(root);
            },
            None => {
                if retries == 0 {
                    return None;
                }
                match wide_checked_mul(scale, hundred) {
                    Some(coarser) => {
                        scale = coarser;
                        retries = retries - 1;
                    },
                    None => {
                        return None;
                    },
                }
            },
        }
    }
}

/// The quadratic's solution in 256-bit arithmetic.
pub fn delta_s_positive_strategy(
    alpha_abs: u128,
    beta: u128,
    alpha_decimals: u128,
    beta_decimals: u128,
    s_b: u128,
    delta_m: u128,
) -> (r: Option<u128>)
    ensures
        r == delta_s_spec(alpha_abs, beta, alpha_decimals, beta_decimals, s_b, delta_m),
{
    let w_alpha_abs: Wide = wide_from_u128(alpha_abs);
    let w_alpha_decimals: Wide = wide_from_u128(alpha_decimals);
    let w_beta_decimals: Wide = wide_from_u128(beta_decimals);
    let decimals_s: Wide = wide_from_u128(DECIMALS_S);
    let two: Wide = wide_from_u128(2);

    let u_left: Wide = wide_checked_mul(
        wide_checked_mul(wide_checked_mul(two, w_alpha_abs)?, wide_from_u128(s_b))?,
        w_beta_decimals,
    )?;
    let u_right: Wide = wide_checked_mul(
        wide_checked_mul(wide_checked_mul(two, wide_from_u128(beta))?, w_alpha_decimals)?,
        decimals_s,
    )?;
    let u: Wide = wide_checked_add(u_left, u_right)?;

    proof {
        lemma_product_fits_wide(alpha_decimals as nat, beta_decimals as nat);
    }
    let v: Wide = wide_checked_mul(
        wide_checked_mul(w_alpha_decimals, w_beta_decimals)?,
        decimals_s,
    )?;

    let w: Wide = wide_checked_mul(
        wide_checked_mul(wide_from_u128(8), wide_from_u128(delta_m))?,
        w_alpha_abs,
    )?;

    let under_b: Wide = wide_checked_mul(wide_checked_mul(v, v)?, w_alpha_decimals)?;
    let a: Wide = compute_a_positive(u, w_alpha_decimals, w, v)?;
    let b: Wide = wide_integer_sqrt(under_b);
    proof {
        lemma_isqrt_unique(under_b@, b@);
    }

    let num_1: Vec<Wide> = vec![decimals_s, w_alpha_decimals, a, v];
    let num_2: Vec<Wide> = vec![decimals_s, w_alpha_decimals, u, b];
    let denom_1: Vec<Wide> = vec![two, w_alpha_abs, b, v];
    let denom_2: Vec<Wide> = vec![two, w_alpha_abs, b, v];
    proof {
        let ds = DECIMALS_S as nat;
        assert(wide_values(num_1@) =~= seq![ds, alpha_decimals as nat, a@, v@]);
        assert(wide_values(num_2@) =~= seq![ds, alpha_decimals as nat, u@, b@]);
        assert(wide_values(denom_1@) =~= seq![2nat, alpha_abs as nat, b@, v@]);
        assert(wide_values(denom_2@) =~= seq![2nat, alpha_abs as nat, b@, v@]);
    }
    let left: Option<Wide> = multiply_divide(num_1, denom_1);
    let right: Option<Wide> = multiply_divide(num_2, denom_2);
    match (left, right) {
        (Some(l), Some(r)) => wide_to_u128(wide_checked_sub(l, r)?),
        _ => None,
    }
}

} // verus!
