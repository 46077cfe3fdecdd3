use crate::consts::{DECIMALS_BETA, DECIMALS_S};
use crate::err::AmmError;
use crate::math::wide::{
    fits_wide, wide_checked_div, wide_checked_mul, wide_checked_sub, wide_from_u128, wide_le,
    wide_to_u128, Wide,
};
use crate::models::bound::{Config, Decimals};
use crate::models::curve::lemma_product_fits_wide;
use vstd::prelude::*;

verus! {

/// The supply priced by the price factor: `omega_m * num / denom`, rounded
/// down. `None` where the product exceeds 128 bits or `denom` is zero.
pub open spec fn priced_supply(omega_m: u128, num: u64, denom: u64) -> Option<u128> {
    if omega_m * num > u128::MAX || denom == 0 {
        None
    } else {
        Some((omega_m * num / (denom as int)) as u128)
    }
}

/// How many decimal digits `n` has; zero has one.
pub open spec fn digits(n: nat) -> nat
    decreases n,
{
    if n < 10 {
        1
    } else {
        1 + digits(n / 10)
    }
}

/// Ten to the power `k`.
pub open spec fn pow10(k: nat) -> nat
    decreases k,
{
    if k == 0 {
        1
    } else {
        10 * pow10((k - 1) as nat)
    }
}

/// The scale for a slope whose numerator has `gap` digits more than its
/// denominator: thirteen digits less the gap, and at least none.
/// `ScaleTooLow` below a gap of five.
pub open spec fn decimals_for(gap: nat) -> Result<u128, AmmError> {
    if gap <= 4 {
        Err(AmmError::ScaleTooLow)
    } else if gap >= 13 {
        Ok(1)
    } else {
        Ok(pow10((13 - gap) as nat) as u128)
    }
}

/// What the slope check answers.
pub open spec fn slope_checked(
    gamma_m: u128,
    omega_m: u128,
    price_factor_num: u64,
    price_factor_denom: u64,
) -> Result<(), AmmError> {
    match priced_supply(omega_m, price_factor_num, price_factor_denom) {
        None => Err(AmmError::MathOverflow),
        Some(pfo) => if pfo <= gamma_m {
            Err(AmmError::CurveNotPositivelySloped)
        } else {
            Ok(())
        },
    }
}

/// What the intercept check answers.
pub open spec fn intercept_checked(
    gamma_m: u128,
    omega_m: u128,
    price_factor_num: u64,
    price_factor_denom: u64,
) -> Result<(), AmmError> {
    match priced_supply(omega_m, price_factor_num, price_factor_denom) {
        None => Err(AmmError::MathOverflow),
        Some(omp) => if 2 * gamma_m <= omp {
            Err(AmmError::InterceptSignViolation)
        } else {
            Ok(())
        },
    }
}

/// The slope of the curve through the given capacities, with its scale:
/// `2 * (priced - gamma_m) * gamma_s_denom^2 / gamma_s^2`, where `priced` is the
/// priced supply, stored at the scale that the digits of numerator and
/// denominator call for.
pub open spec fn alpha_abs_spec(
    gamma_s: u128,
    gamma_s_denom: u128,
    gamma_m: u128,
    omega_m: u128,
    price_factor_num: u64,
    price_factor_denom: u64,
) -> Result<(u128, u128), AmmError> {
    match slope_checked(gamma_m, omega_m, price_factor_num, price_factor_denom) {
        Err(e) => Err(e),
        Ok(_) => {
            let left = priced_supply(omega_m, price_factor_num, price_factor_denom)->Some_0;
            let num = ((2 * (left - gamma_m)) as nat) * (gamma_s_denom as nat * gamma_s_denom as nat);
            let denom = gamma_s as nat * gamma_s as nat;
            if !fits_wide(num) {
                Err(AmmError::MathOverflow)
            } else if num <= denom {
                Err(AmmError::CapacityOutOfRelativeLimit)
            } else if num > u128::MAX {
                Err(AmmError::MathOverflow)
            } else {
                match decimals_for((digits(num) - digits(denom)) as nat) {
                    Err(e) => Err(e),
                    Ok(alpha_decimals) => if denom == 0 || num * (alpha_decimals as nat) / denom
                        > u128::MAX {
                        Err(AmmError::MathOverflow)
                    } else {
                        Ok(((num * (alpha_decimals as nat) / denom) as u128, alpha_decimals))
                    },
                }
            }
        },
    }
}

/// The intercept of the curve through the given capacities at the scale
/// `beta_decimals`: `(2 * gamma_m - priced) * gamma_s_denom * beta_decimals / gamma_s`,
/// rounded down, where `priced` is the priced supply.
pub open spec fn beta_spec(
    gamma_s: u128,
    gamma_s_denom: u128,
    gamma_m: u128,
    omega_m: u128,
    price_factor_num: u64,
    price_factor_denom: u64,
    beta_decimals: u128,
) -> Result<u128, AmmError> {
    match intercept_checked(gamma_m, omega_m, price_factor_num, price_factor_denom) {
        Err(e) => Err(e),
        Ok(_) => {
            let left = priced_supply(omega_m, price_factor_num, price_factor_denom)->Some_0;
            let num = ((2 * gamma_m - left) as nat) * (gamma_s_denom as nat);
            let scaled = num * (beta_decimals as nat);
            if !fits_wide(num) || !fits_wide(scaled) || gamma_s == 0 || scaled / (gamma_s as nat)
                > u128::MAX {
                Err(AmmError::MathOverflow)
            } else {
                Ok((scaled / (gamma_s as nat)) as u128)
            }
        },
    }
}

/// The curve through the given capacities: slope and intercept as derived,
/// the intercept at `DECIMALS_BETA`, the quote scale `DECIMALS_S`.
pub open spec fn curve_params_spec(
    gamma_s: u64,
    gamma_m: u64,
    omega_m: u64,
    price_factor_num: u64,
    price_factor_denom: u64,
) -> Result<Config, AmmError> {
    match alpha_abs_spec(
        gamma_s as u128,
        DECIMALS_S,
        gamma_m as u128,
        omega_m as u128,
        price_factor_num,
        price_factor_denom,
    ) {
        Err(e) => Err(e),
        Ok((alpha_abs, alpha_decimals)) => match beta_spec(
            gamma_s as u128,
            DECIMALS_S,
            gamma_m as u128,
            omega_m as u128,
            price_factor_num,
            price_factor_denom,
            DECIMALS_BETA,
        ) {
            Err(e) => Err(e),
            Ok(beta) => Ok(
                Config {
                    alpha_abs,
                    beta,
                    price_factor_num,
                    price_factor_denom,
                    gamma_s,
                    gamma_m,
                    omega_m,
                    decimals: Decimals {
                        alpha: alpha_decimals,
                        beta: DECIMALS_BETA,
                        quote: DECIMALS_S as u64,
                    },
                },
            ),
        },
    }
}

impl Config {
    /// The curve slopes upward from a positive intercept: the priced supply
    /// lies above the base-asset capacity and below twice that capacity.
    pub open spec fn valid(&self) -> bool {
        match priced_supply(self.omega_m as u128, self.price_factor_num, self.price_factor_denom) {
            None => false,
            Some(priced) => self.gamma_m < priced < 2 * self.gamma_m,
        }
    }
}

/// A number has no fewer digits than a smaller one.
pub proof fn lemma_digits_ordered(a: nat, b: nat)
    requires
        a <= b,
    ensures
        digits(a) <= digits(b),
    decreases b,
{
    if a >= 10 {
        lemma_digits_ordered(a / 10, b / 10);
    }
}

/// A 128-bit number has at most 39 digits.
pub proof fn lemma_digits_bounded(n: nat)
    requires
        n <= u128::MAX,
    ensures
        1 <= digits(n) <= 39,
{
    reveal_with_fuel(digits, 40);
}

/// A derived slope is positive and stored at a positive scale.
pub proof fn lemma_derived_slope_positive(
    gamma_s: u128,
    gamma_s_denom: u128,
    gamma_m: u128,
    omega_m: u128,
    price_factor_num: u64,
    price_factor_denom: u64,
)
    requires
        alpha_abs_spec(
            gamma_s,
            gamma_s_denom,
            gamma_m,
            omega_m,
            price_factor_num,
            price_factor_denom,
        ) is Ok,
    ensures
        ({
            let (alpha_abs, alpha_decimals) = alpha_abs_spec(
                gamma_s,
                gamma_s_denom,
                gamma_m,
                omega_m,
                price_factor_num,
                price_factor_denom,
            )->Ok_0;
            alpha_abs > 0 && alpha_decimals > 0
        }),
{
    reveal_with_fuel(pow10, 9);
    let left = priced_supply(omega_m, price_factor_num, price_factor_denom)->Some_0;
    let num = ((2 * (left - gamma_m)) as nat) * (gamma_s_denom as nat * gamma_s_denom as nat);
    let denom = gamma_s as nat * gamma_s as nat;
    let alpha_decimals = decimals_for((digits(num) - digits(denom)) as nat)->Ok_0;
    assert(num * (alpha_decimals as nat) / denom >= 1) by (nonlinear_arith)
        requires
            0 < denom < num,
            alpha_decimals >= 1,
    ;
}

/// Prices the supply by the price factor.
fn priced(omega_m: u128, price_factor_num: u64, price_factor_denom: u64) -> (r: Option<u128>)
    ensures
        r == priced_supply(omega_m, price_factor_num, price_factor_denom),
{
    omega_m.checked_mul(price_factor_num as u128)?.checked_div(price_factor_denom as u128)
}

/// Counts the decimal digits of `num_`.
pub fn compute_scale(num_: u128) -> (scale: u64)
    ensures
        scale == digits(num_ as nat),
{
    let mut num: u128 = num_;
    let mut scale: u64 = 1;
    proof {
        lemma_digits_bounded(num_ as nat);
    }
    while num >= 10
        invariant
            1 <= scale,
            scale + digits(num as nat) == digits(num_ as nat) + 1,
            digits(num_ as nat) <= 39,
        decreases num,
    {
        num = num / 10;
        scale = scale + 1;
    }
    scale
}

/// The scale at which a slope is stored, from the gap in digits between its
/// numerator and denominator.
pub fn compute_decimals(scale: u64) -> (r: Result<u128, AmmError>)
    ensures
        r == decimals_for(scale as nat),
{
    proof {
        reveal_with_fuel(pow10, 9);
    }
    match scale {
        0..=4 => Err(AmmError::ScaleTooLow),
        5 => Ok(100_000_000),
        6 => Ok(10_000_000),
        7 => Ok(1_000_000),
        8 => Ok(100_000),
        9 => Ok(10_000),
        10 => Ok(1_000),
        11 => Ok(100),
        12 => Ok(10),
        _ => Ok(1),
    }
}

/// Fails with `CurveNotPositivelySloped` unless the priced supply exceeds the
/// base-asset capacity, and with `MathOverflow` where the priced supply cannot
/// be computed.
pub fn check_slope(
    gamma_m: u128,
    omega_m: u128,
    price_factor_num: u64,
    price_factor_denom: u64,
) -> (r: Result<(), AmmError>)
    ensures
        r == slope_checked(gamma_m, omega_m, price_factor_num, price_factor_denom),
{
    match priced(omega_m, price_factor_num, price_factor_denom) {
        None => Err(AmmError::MathOverflow),
        Some(pfo) => if pfo <= gamma_m {
            Err(AmmError::CurveNotPositivelySloped)
        } else {
            Ok(())
        },
    }
}

/// Fails with `InterceptSignViolation` unless twice the base-asset capacity
/// exceeds the priced supply, and with `MathOverflow` where the priced supply
/// cannot be computed.
pub fn check_intercept(
    gamma_m: u128,
    omega_m: u128,
    price_factor_num: u64,
    price_factor_denom: u64,
) -> (r: Result<(), AmmError>)
    ensures
        r == intercept_checked(gamma_m, omega_m, price_factor_num, price_factor_denom),
{
    match priced(omega_m, price_factor_num, price_factor_denom) {
        None => Err(AmmError::MathOverflow),
        Some(omp) => match gamma_m.checked_mul(2) {
            Some(double) => if double <= omp {
                Err(AmmError::InterceptSignViolation)
            } else {
                Ok(())
            },
            None => Ok(()),
        },
    }
}

/// Derives the slope of the curve and the scale it is stored at.
pub fn compute_alpha_abs(
    gamma_s: u128,
    gamma_s_denom: u128,
    gamma_m: u128,
    omega_m: u128,
    price_factor_num: u64,
    price_factor_denom: u64,
) -> (r: Result<(u128, u128), AmmError>)
    ensures
        r == alpha_abs_spec(
            gamma_s,
            gamma_s_denom,
            gamma_m,
            omega_m,
            price_factor_num,
            price_factor_denom,
        ),
{
    check_slope(gamma_m, omega_m, price_factor_num, price_factor_denom)?;
    let left: u128 = match priced(omega_m, price_factor_num, price_factor_denom) {
        Some(left) => left,
        None => {
            return Err(AmmError::MathOverflow);
        },
    };
    let w_gamma_s: Wide = wide_from_u128(gamma_s);
    let w_gamma_s_denom: Wide = wide_from_u128(gamma_s_denom);
    proof {
        lemma_product_fits_wide(gamma_s as nat, gamma_s as nat);
        lemma_product_fits_wide(gamma_s_denom as nat, gamma_s_denom as nat);
    }
    let rise: Wide = match wide_checked_mul(wide_from_u128(2), wide_from_u128(left - gamma_m)) {
        Some(rise) => rise,
        None => {
            return Err(AmmError::MathOverflow);
        },
    };
    let run: Wide = match wide_checked_mul(w_gamma_s_denom, w_gamma_s_denom) {
        Some(run) => run,
        None => {
            return Err(AmmError::MathOverflow);
        },
    };
    let denom: Wide = match wide_checked_mul(w_gamma_s, w_gamma_s) {
        Some(denom) => denom,
        None => {
            return Err(AmmError::MathOverflow);
        },
    };
    let num: Wide = match wide_checked_mul(rise, run) {
        Some(num) => num,
        None => {
            return Err(AmmError::MathOverflow);
        },
    };
    if wide_le(num, denom) {
        return Err(AmmError::CapacityOutOfRelativeLimit);
    }
    let (num_low, denom_low) = match (wide_to_u128(num), wide_to_u128(denom)) {
        (Some(n), Some(d)) => (n, d),
        _ => {
            return Err(AmmError::MathOverflow);
        },
    };
    let num_scale: u64 = compute_scale(num_low);
    let denom_scale: u64 = compute_scale(denom_low);
    proof {
        lemma_digits_ordered(denom@, num@);
    }
    let net_scale: u64 = num_scale - denom_scale;
    let alpha_decimals: u128 = compute_decimals(net_scale)?;
    proof {
        lemma_product_fits_wide(num@, alpha_decimals as nat);
    }
    let scaled: Wide = match wide_checked_mul(num, wide_from_u128(alpha_decimals)) {
        Some(scaled) => scaled,
        None => {
            return Err(AmmError::MathOverflow);
        },
    };
    let alpha_abs: u128 = match wide_checked_div(scaled, denom) {
        Some(quotient) => match wide_to_u128(quotient) {
            Some(alpha_abs) => alpha_abs,
            None => {
                return Err(AmmError::MathOverflow);
            },
        },
        None => {
            return Err(AmmError::MathOverflow);
        },
    };
    Ok((alpha_abs, alpha_decimals))
}

/// Derives the intercept of the curve at the scale `beta_decimals`.
pub fn compute_beta(
    gamma_s: u128,
    gamma_s_denom: u128,
    gamma_m: u128,
    omega_m: u128,
    price_factor_num: u64,
    price_factor_denom: u64,
    beta_decimals: u128,
) -> (r: Result<u128, AmmError>)
    ensures
        r == beta_spec(
            gamma_s,
            gamma_s_denom,
            gamma_m,
            omega_m,
            price_factor_num,
            price_factor_denom,
            beta_decimals,
        ),
{
    check_intercept(gamma_m, omega_m, price_factor_num, price_factor_denom)?;
    let left: u128 = match priced(omega_m, price_factor_num, price_factor_denom) {
        Some(left) => left,
        None => {
            return Err(AmmError::MathOverflow);
        },
    };
    let right: Option<Wide> = wide_checked_mul(wide_from_u128(2), wide_from_u128(gamma_m));
    let quotient: Option<Wide> = match right {
        Some(right) => match wide_checked_sub(right, wide_from_u128(left)) {
            Some(excess) => match wide_checked_mul(excess, wide_from_u128(gamma_s_denom)) {
                Some(num) => match wide_checked_mul(num, wide_from_u128(beta_decimals)) {
                    Some(scaled) => wide_checked_div(scaled, wide_from_u128(gamma_s)),
                    None => None,
                },
                None => None,
            },
            None => None,
        },
        None => None,
    };
    match quotient {
        Some(q) => match wide_to_u128(q) {
            Some(beta) => Ok(beta),
            None => Err(AmmError::MathOverflow),
        },
        None => Err(AmmError::MathOverflow),
    }
}

/// Derives the curve of a new pool from its capacities and its price factor.
pub fn derive_curve_params(
    gamma_s: u64,
    gamma_m: u64,
    omega_m: u64,
    price_factor_num: u64,
    price_factor_denom: u64,
) -> (r: Result<Config, AmmError>)
    ensures
        r == curve_params_spec(gamma_s, gamma_m, omega_m, price_factor_num, price_factor_denom),
        r is Ok ==> r->Ok_0.valid() && r->Ok_0.alpha_abs > 0 && r->Ok_0.decimals.alpha > 0,
{
    proof {
        if alpha_abs_spec(
            gamma_s as u128,
            DECIMALS_S,
            gamma_m as u128,
            omega_m as u128,
            price_factor_num,
            price_factor_denom,
        ) is Ok {
            lemma_derived_slope_positive(
                gamma_s as u128,
                DECIMALS_S,
                gamma_m as u128,
                omega_m as u128,
                price_factor_num,
                price_factor_denom,
            );
        }
    }
    let (alpha_abs, alpha_decimals) = compute_alpha_abs(
        gamma_s as u128,
        DECIMALS_S,
        gamma_m as u128,
        omega_m as u128,
        price_factor_num,
        price_factor_denom,
    )?;
    let beta: u128 = compute_beta(
        gamma_s as u128,
        DECIMALS_S,
        gamma_m as u128,
        omega_m as u128,
        price_factor_num,
        price_factor_denom,
        DECIMALS_BETA,
    )?;
    Ok(
        Config {
            alpha_abs,
            beta,
            price_factor_num,
            price_factor_denom,
            gamma_s,
            gamma_m,
            omega_m,
            decimals: Decimals {
                alpha: alpha_decimals,
                beta: DECIMALS_BETA,
                quote: DECIMALS_S as u64,
            },
        },
    )
}

} // verus!
