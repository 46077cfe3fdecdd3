use crate::consts::DECIMALS_S;
use crate::models::bound::{leg_fee, BoundPool, Config, SwapAmount, SwapDirection};
use crate::models::curve::{delta_m1_spec, delta_m2_spec, lemma_square_ordered};
use crate::models::fees::{fee_spec, lemma_fee_at_most_amount};
use vstd::arithmetic::div_mod::{
    lemma_div_denominator, lemma_div_is_ordered, lemma_fundamental_div_mod,
    lemma_fundamental_div_mod_converse,
};
use vstd::prelude::*;

verus! {

/// A product grows with its first factor.
pub proof fn lemma_mul_ordered(a: int, b: int, c: int)
    requires
        a <= b,
        0 <= c,
    ensures
        a * c <= b * c,
        c * a <= c * b,
{
    assert(a * c <= b * c && c * a <= c * b) by (nonlinear_arith)
        requires
            a <= b,
            0 <= c,
    ;
}

/// A quotient is unchanged when both parts are multiplied by the same
/// positive number.
pub proof fn lemma_div_common_factor(x: int, d: int, k: int)
    requires
        0 <= x,
        0 < d,
        0 < k,
    ensures
        d * k > 0,
        (x * k) / (d * k) == x / d,
{
    let q = x / d;
    let r = x % d;
    lemma_fundamental_div_mod(x, d);
    assert(d * k > 0 && 0 <= r * k < d * k && x * k == q * (d * k) + r * k) by (nonlinear_arith)
        requires
            x == d * q + r,
            0 <= r < d,
            0 < k,
            0 < d,
    ;
    lemma_fundamental_div_mod_converse(x * k, d * k, q, r * k);
}

/// Two quotients by the same divisor add up to at most the quotient of the sum.
pub proof fn lemma_div_sum(p: int, q: int, d: int)
    requires
        0 <= p,
        0 <= q,
        0 < d,
    ensures
        p / d + q / d <= (p + q) / d,
{
    lemma_fundamental_div_mod(p, d);
    lemma_fundamental_div_mod(q, d);
    let a = p / d;
    let b = q / d;
    let rest = p % d + q % d;
    assert(p + q == (a + b) * d + rest) by (nonlinear_arith)
        requires
            p == d * a + p % d,
            q == d * b + q % d,
            rest == p % d + q % d,
    ;
    lemma_fundamental_div_mod(p + q, d);
    let c = (p + q) / d;
    assert(a + b <= c) by (nonlinear_arith)
        requires
            p + q == (a + b) * d + rest,
            p + q == d * c + (p + q) % d,
            0 <= rest,
            0 <= (p + q) % d < d,
            0 < d,
    ;
}

/// The direct formula gives no more for a window that is no longer, covers no
/// more of the squares and ends no higher; and where it can be computed for
/// the larger window it can be for the smaller.
pub proof fn lemma_delta_m1_ordered(
    alpha_abs: u128,
    beta: u128,
    alpha_decimals: u128,
    beta_decimals: u128,
    s_a: u128,
    s_b: u128,
    t_a: u128,
    t_b: u128,
)
    requires
        s_a <= s_b,
        t_a <= t_b,
        s_b <= t_b,
        s_b - s_a <= t_b - t_a,
        s_b * s_b - s_a * s_a <= t_b * t_b - t_a * t_a,
        delta_m1_spec(alpha_abs, beta, alpha_decimals, beta_decimals, t_a, t_b) is Some,
    ensures
        delta_m1_spec(alpha_abs, beta, alpha_decimals, beta_decimals, s_a, s_b) is Some,
        delta_m1_spec(alpha_abs, beta, alpha_decimals, beta_decimals, s_a, s_b)->Some_0
            <= delta_m1_spec(alpha_abs, beta, alpha_decimals, beta_decimals, t_a, t_b)->Some_0,
{
    let ds = DECIMALS_S as int;
    let left_denom = beta_decimals * ds;
    let s_num = (s_b - s_a) * beta;
    let t_num = (t_b - t_a) * beta;
    let s_scaled = (s_b * s_b - s_a * s_a) * alpha_abs;
    let t_scaled = (t_b * t_b - t_a * t_a) * alpha_abs;
    lemma_square_ordered(s_a as nat, s_b as nat);
    lemma_square_ordered(t_a as nat, t_b as nat);
    lemma_square_ordered(s_b as nat, t_b as nat);
    lemma_mul_ordered(s_b - s_a, t_b - t_a, beta as int);
    lemma_mul_ordered(0, s_b - s_a, beta as int);
    lemma_mul_ordered(s_b * s_b - s_a * s_a, t_b * t_b - t_a * t_a, alpha_abs as int);
    lemma_mul_ordered(0, s_b * s_b - s_a * s_a, alpha_abs as int);
    lemma_div_is_ordered(s_num, t_num, left_denom);
    lemma_div_is_ordered(0, s_num, left_denom);
    lemma_div_is_ordered(s_scaled, t_scaled, ds * ds);
    lemma_div_is_ordered(0, s_scaled, ds * ds);
    lemma_div_is_ordered(s_scaled / (ds * ds), t_scaled / (ds * ds), 2 * alpha_decimals);
    lemma_div_is_ordered(0, s_scaled / (ds * ds), 2 * alpha_decimals);
}

/// The single-quotient formula gives no more for a window that is no longer
/// and covers no more of the squares; and where it can be computed for the
/// larger window it can be for the smaller.
pub proof fn lemma_delta_m2_ordered(
    alpha_abs: u128,
    beta: u128,
    alpha_decimals: u128,
    beta_decimals: u128,
    s_a: u128,
    s_b: u128,
    t_a: u128,
    t_b: u128,
)
    requires
        s_a <= s_b,
        t_a <= t_b,
        s_b - s_a <= t_b - t_a,
        s_b * s_b - s_a * s_a <= t_b * t_b - t_a * t_a,
        delta_m2_spec(alpha_abs, beta, alpha_decimals, beta_decimals, t_a, t_b) is Some,
    ensures
        delta_m2_spec(alpha_abs, beta, alpha_decimals, beta_decimals, s_a, s_b) is Some,
        delta_m2_spec(alpha_abs, beta, alpha_decimals, beta_decimals, s_a, s_b)->Some_0
            <= delta_m2_spec(alpha_abs, beta, alpha_decimals, beta_decimals, t_a, t_b)->Some_0,
{
    let ds = DECIMALS_S as nat;
    let lead = ((beta as nat * 2) * ds) * (alpha_decimals as nat);
    let slope = alpha_abs as nat * beta_decimals as nat;
    let half = (2 * alpha_decimals as nat) * (beta_decimals as nat);
    let denom = half * (ds * ds);
    let s_span = (s_b - s_a) as nat;
    let t_span = (t_b - t_a) as nat;
    lemma_square_ordered(s_a as nat, s_b as nat);
    lemma_square_ordered(t_a as nat, t_b as nat);
    let s_diff = (s_b * s_b - s_a * s_a) as nat;
    let t_diff = (t_b * t_b - t_a * t_a) as nat;
    lemma_mul_ordered(s_span as int, t_span as int, lead as int);
    lemma_mul_ordered(s_diff as int, t_diff as int, slope as int);
    let s_total = lead * s_span + slope * s_diff;
    let t_total = lead * t_span + slope * t_diff;
    lemma_div_is_ordered(s_total as int, t_total as int, denom as int);
}

/// Where both formulas can be computed, the direct one gives no more than the
/// single-quotient one: it rounds twice where the other rounds once.
pub proof fn lemma_delta_m1_below_m2(
    alpha_abs: u128,
    beta: u128,
    alpha_decimals: u128,
    beta_decimals: u128,
    s_a: u128,
    s_b: u128,
)
    requires
        delta_m1_spec(alpha_abs, beta, alpha_decimals, beta_decimals, s_a, s_b) is Some,
        delta_m2_spec(alpha_abs, beta, alpha_decimals, beta_decimals, s_a, s_b) is Some,
    ensures
        delta_m1_spec(alpha_abs, beta, alpha_decimals, beta_decimals, s_a, s_b)->Some_0
            <= delta_m2_spec(alpha_abs, beta, alpha_decimals, beta_decimals, s_a, s_b)->Some_0,
{
    let ds = DECIMALS_S as int;
    let ad = alpha_decimals as int;
    let bd = beta_decimals as int;
    let span = s_b - s_a;
    lemma_square_ordered(s_a as nat, s_b as nat);
    let diff = s_b * s_b - s_a * s_a;
    let left_num = span * beta;
    let left_denom = bd * ds;
    let scaled = diff * alpha_abs;
    let k = 2 * ad * ds;
    let denom = left_denom * k;
    lemma_mul_ordered(0, span, beta as int);
    lemma_mul_ordered(0, diff, alpha_abs as int);
    // the first term over the common denominator
    lemma_div_common_factor(left_num, left_denom, k);
    // the second term over the common denominator
    lemma_div_denominator(scaled, ds * ds, 2 * ad);
    lemma_div_common_factor(scaled, (ds * ds) * (2 * ad), bd);
    assert(((ds * ds) * (2 * ad)) * bd == denom) by (nonlinear_arith)
        requires
            denom == (bd * ds) * (2 * ad * ds),
    ;
    lemma_mul_ordered(0, left_num, k);
    lemma_mul_ordered(0, scaled, bd);
    lemma_div_sum(left_num * k, scaled * bd, denom);
    // the same sum and denominator as the single-quotient formula writes them
    let ds_n = DECIMALS_S as nat;
    let lead = ((beta as nat * 2) * ds_n) * (alpha_decimals as nat);
    let left2 = lead * (span as nat);
    let right2 = (alpha_abs as nat * beta_decimals as nat) * (diff as nat);
    let half = (2 * alpha_decimals as nat) * (beta_decimals as nat);
    let denom2 = half * (ds_n * ds_n);
    assert(left2 == left_num * k) by (nonlinear_arith)
        requires
            left2 == ((beta * 2) * ds) * ad * span,
            left_num == span * beta,
            k == 2 * ad * ds,
    ;
    assert(right2 == scaled * bd) by (nonlinear_arith)
        requires
            right2 == (alpha_abs * bd) * diff,
            scaled == diff * alpha_abs,
    ;
    assert(denom2 == denom) by (nonlinear_arith)
        requires
            denom2 == ((2 * ad) * bd) * (ds * ds),
            denom == (bd * ds) * (2 * ad * ds),
    ;
}

/// The amount for one window is at most the amount for another that is no
/// shorter, covers no less of the squares and ends no lower; and where the
/// amount of the larger window can be computed, so can that of the smaller.
pub proof fn lemma_delta_m_ordered(config: Config, s_a: u64, s_b: u64, t_a: u64, t_b: u64)
    requires
        s_a <= s_b,
        t_a <= t_b,
        s_b <= t_b,
        s_b - s_a <= t_b - t_a,
        s_b * s_b - s_a * s_a <= t_b * t_b - t_a * t_a,
        config.delta_m(t_a, t_b) is Ok,
    ensures
        config.delta_m(s_a, s_b) is Ok,
        config.delta_m(s_a, s_b)->Ok_0 <= config.delta_m(t_a, t_b)->Ok_0,
{
    let a = config.alpha_abs;
    let b = config.beta;
    let ad = config.decimals.alpha;
    let bd = config.decimals.beta;
    let s1 = delta_m1_spec(a, b, ad, bd, s_a as u128, s_b as u128);
    let s2 = delta_m2_spec(a, b, ad, bd, s_a as u128, s_b as u128);
    let t1 = delta_m1_spec(a, b, ad, bd, t_a as u128, t_b as u128);
    let t2 = delta_m2_spec(a, b, ad, bd, t_a as u128, t_b as u128);
    if t1 is Some {
        lemma_delta_m1_ordered(a, b, ad, bd, s_a as u128, s_b as u128, t_a as u128, t_b as u128);
    } else {
        lemma_delta_m2_ordered(a, b, ad, bd, s_a as u128, s_b as u128, t_a as u128, t_b as u128);
        if s1 is Some {
            lemma_delta_m1_below_m2(a, b, ad, bd, s_a as u128, s_b as u128);
        }
    }
}

/// Moving the quote reserve further up from the same level never gives less
/// of the base asset; and where the amount for the further level can be
/// computed, so can the amount for the nearer.
pub proof fn lemma_delta_m_monotone(config: Config, s_a: u64, s_b: u64, s_c: u64)
    requires
        s_a <= s_b <= s_c,
        config.delta_m(s_a, s_c) is Ok,
    ensures
        config.delta_m(s_a, s_b) is Ok,
        config.delta_m(s_a, s_b)->Ok_0 <= config.delta_m(s_a, s_c)->Ok_0,
{
    lemma_square_ordered(s_b as nat, s_c as nat);
    lemma_delta_m_ordered(config, s_a, s_b, s_a, s_c);
}

/// The same quote input gives no less of the base asset at a higher reserve
/// level: the amount per unit of input rises with the level.
pub proof fn lemma_delta_m_rises_with_level(config: Config, s: u64, t: u64, width: u64)
    requires
        s <= t,
        t + width <= u64::MAX,
        config.delta_m(t, (t + width) as u64) is Ok,
    ensures
        config.delta_m(s, (s + width) as u64) is Ok,
        config.delta_m(s, (s + width) as u64)->Ok_0 <= config.delta_m(
            t,
            (t + width) as u64,
        )->Ok_0,
{
    assert((s + width) * (s + width) - s * s <= (t + width) * (t + width) - t * t)
        by (nonlinear_arith)
        requires
            0 <= s <= t,
            0 <= width,
    ;
    lemma_delta_m_ordered(config, s, (s + width) as u64, t, (t + width) as u64);
}

/// The amount of the single-quotient formula before it is divided: the exact
/// base-asset amount of the window times the common denominator
/// `2 * alpha_decimals * beta_decimals * DECIMALS_S^2`.
pub open spec fn delta_m_numerator(config: Config, s_a: u64, s_b: u64) -> int {
    2 * config.beta * DECIMALS_S * config.decimals.alpha * (s_b - s_a) + config.alpha_abs
        * config.decimals.beta * (s_b * s_b - s_a * s_a)
}

/// On a curve with a slope, the exact amount that the same quote input gives
/// is strictly larger at a higher reserve level.
pub proof fn lemma_exact_amount_strictly_rises(config: Config, s: u64, t: u64, width: u64)
    requires
        s < t,
        0 < width,
        t + width <= u64::MAX,
        config.alpha_abs > 0,
        config.decimals.beta > 0,
    ensures
        delta_m_numerator(config, s, (s + width) as u64) < delta_m_numerator(
            config,
            t,
            (t + width) as u64,
        ),
{
    let slope = config.alpha_abs * config.decimals.beta;
    let lead = 2 * config.beta * DECIMALS_S * config.decimals.alpha;
    assert(slope > 0) by (nonlinear_arith)
        requires
            slope == config.alpha_abs * config.decimals.beta,
            config.alpha_abs > 0,
            config.decimals.beta > 0,
    ;
    let s_diff = (s + width) * (s + width) - s * s;
    let t_diff = (t + width) * (t + width) - t * t;
    assert(s_diff < t_diff) by (nonlinear_arith)
        requires
            0 <= s < t,
            0 < width,
            s_diff == (s + width) * (s + width) - s * s,
            t_diff == (t + width) * (t + width) - t * t,
    ;
    assert(slope * s_diff < slope * t_diff) by (nonlinear_arith)
        requires
            slope > 0,
            s_diff < t_diff,
    ;
    assert(lead * ((s + width) - s) == lead * ((t + width) - t)) by (nonlinear_arith);
}

/// The room left on the side that a swap of the given direction pays into.
pub open spec fn room(pool: BoundPool, direction: SwapDirection) -> int {
    match direction {
        SwapDirection::Buy => pool.config.gamma_s - pool.quote_reserve.tokens,
        SwapDirection::Sell => pool.config.gamma_m - pool.meme_reserve.tokens,
    }
}

/// The balance of the side that a swap of the given direction pays out of.
pub open spec fn paying_balance(pool: BoundPool, direction: SwapDirection) -> u64 {
    match direction {
        SwapDirection::Buy => pool.meme_reserve.tokens,
        SwapDirection::Sell => pool.quote_reserve.tokens,
    }
}

/// What is left of the input of a swap after the fee on the way in.
pub open spec fn offered(pool: BoundPool, amount_in: u64, direction: SwapDirection) -> Result<
    (u64, u64),
    crate::err::AmmError,
> {
    match direction {
        SwapDirection::Buy => leg_fee(amount_in, pool.fees.fee_quote_percent, 1),
        SwapDirection::Sell => leg_fee(amount_in, pool.fees.fee_meme_percent, 2),
    }
}

/// A quote never takes more than was offered, never more than the room on
/// the receiving side, and never gives less than the minimum asked for.
pub proof fn lemma_quote_bounds(
    pool: BoundPool,
    amount_in: u64,
    min_amount_out: u64,
    direction: SwapDirection,
)
    requires
        pool.quote(amount_in, min_amount_out, direction) is Ok,
    ensures
        ({
            let swap = pool.quote(amount_in, min_amount_out, direction)->Ok_0;
            &&& swap.amount_in + swap.admin_fee_in <= amount_in
            &&& 0 <= swap.amount_in <= room(pool, direction)
            &&& min_amount_out <= swap.amount_out
        }),
{
}

/// An input that fills the receiving side is cut to the room there and is
/// paid the whole balance of the other side, whatever the curve is.
pub proof fn lemma_saturating_quote(
    pool: BoundPool,
    amount_in: u64,
    min_amount_out: u64,
    direction: SwapDirection,
)
    requires
        pool.quote(amount_in, min_amount_out, direction) is Ok,
        offered(pool, amount_in, direction) is Ok,
        offered(pool, amount_in, direction)->Ok_0.1 >= room(pool, direction),
    ensures
        ({
            let swap = pool.quote(amount_in, min_amount_out, direction)->Ok_0;
            &&& swap.amount_in == room(pool, direction)
            &&& swap.amount_out + swap.admin_fee_out == paying_balance(pool, direction)
        }),
{
}

/// Applying a quote to the pool it was made for leaves the pool well formed.
pub proof fn lemma_applied_quote_well_formed(
    pool: BoundPool,
    amount_in: u64,
    min_amount_out: u64,
    direction: SwapDirection,
)
    requires
        pool.wf(),
        pool.quote(amount_in, min_amount_out, direction) is Ok,
        pool.can_apply(pool.quote(amount_in, min_amount_out, direction)->Ok_0, direction),
    ensures
        pool.applied(pool.quote(amount_in, min_amount_out, direction)->Ok_0, direction).wf(),
{
}

/// Applying a swap never unlocks a pool and never touches its migration flag;
/// a purchase that empties the base reserve locks it.
pub proof fn lemma_applied_flags(pool: BoundPool, swap: SwapAmount, direction: SwapDirection)
    ensures
        pool.locked ==> pool.applied(swap, direction).locked,
        pool.applied(swap, direction).pool_migration == pool.pool_migration,
        direction == SwapDirection::Buy && pool.applied(swap, direction).meme_reserve.tokens == 0
            ==> pool.applied(swap, direction).locked,
{
}

/// Whether `other` is `pool` with another slope, intercept and scales, and
/// nothing else changed.
pub open spec fn same_but_curve(pool: BoundPool, other: BoundPool) -> bool {
    other == (BoundPool {
        config: Config {
            alpha_abs: other.config.alpha_abs,
            beta: other.config.beta,
            decimals: other.config.decimals,
            ..pool.config
        },
        ..pool
    })
}

/// The quote of an input that fills the receiving side does not depend on
/// the curve: the solver is not asked.
pub proof fn lemma_saturating_quote_ignores_curve(
    pool: BoundPool,
    other: BoundPool,
    amount_in: u64,
    min_amount_out: u64,
    direction: SwapDirection,
)
    requires
        same_but_curve(pool, other),
        offered(pool, amount_in, direction) is Ok,
        offered(pool, amount_in, direction)->Ok_0.1 >= room(pool, direction),
    ensures
        pool.quote(amount_in, min_amount_out, direction) == other.quote(
            amount_in,
            min_amount_out,
            direction,
        ),
{
}

/// In a well-formed pool a purchase that fills the quote side is granted
/// whenever the base reserve less its fee meets the minimum asked for: the
/// trader pays the room with the fee on the whole input and is paid the
/// base reserve less its fee.
pub proof fn lemma_saturating_buy_granted(pool: BoundPool, amount_in: u64, min_amount_out: u64)
    requires
        pool.wf(),
        amount_in > 0,
        amount_in - fee_spec(amount_in as nat, pool.fees.fee_quote_percent as nat)
            >= pool.config.gamma_s - pool.quote_reserve.tokens,
        min_amount_out <= pool.meme_reserve.tokens - fee_spec(
            pool.meme_reserve.tokens as nat,
            pool.fees.fee_meme_percent as nat,
        ),
    ensures
        pool.quote(amount_in, min_amount_out, SwapDirection::Buy) == Ok::<
            SwapAmount,
            crate::err::AmmError,
        >(
            SwapAmount {
                amount_in: (pool.config.gamma_s - pool.quote_reserve.tokens) as u64,
                amount_out: (pool.meme_reserve.tokens - fee_spec(
                    pool.meme_reserve.tokens as nat,
                    pool.fees.fee_meme_percent as nat,
                )) as u64,
                admin_fee_in: fee_spec(amount_in as nat, pool.fees.fee_quote_percent as nat) as u64,
                admin_fee_out: fee_spec(
                    pool.meme_reserve.tokens as nat,
                    pool.fees.fee_meme_percent as nat,
                ) as u64,
            },
        ),
{
    lemma_fee_at_most_amount(amount_in as nat, pool.fees.fee_quote_percent as nat);
    lemma_fee_at_most_amount(pool.meme_reserve.tokens as nat, pool.fees.fee_meme_percent as nat);
}

} // verus!
