use launchpad::endpoints::send_airdrop_funds;
use launchpad::endpoints::swap_x;
use launchpad::endpoints::swap_y::{self, clamp_referrer_points, Purchase};
use launchpad::err::AmmError;
use launchpad::libraries::full_math::{mul_div_ceil, mul_div_floor};
use launchpad::math::utils::multiply_divide;
use launchpad::math::wide::Wide;
use launchpad::models::bound::{
    apply_swap, quote_swap, BoundPool, Config, Decimals, Reserve, SwapAmount, SwapDirection,
};
use launchpad::models::curve::{
    compute_a_positive, delta_m1_positive_strategy, delta_m2_positive_strategy,
    delta_s_positive_strategy,
};
use launchpad::models::fees::{get_fee_amount, Fees, FEE, FEE_PRECISION, MEME_FEE};
use launchpad::models::params::{
    check_intercept, check_slope, compute_alpha_abs, compute_beta, compute_decimals,
    compute_scale, derive_curve_params,
};
use launchpad::models::points_epoch::PointsEpoch;
use launchpad::models::staking::StakingPool;
use launchpad::models::token::{same_key, TokenBalance};

const MEME_MINT: [u8; 32] = [7u8; 32];

fn config() -> Config {
    Config {
        alpha_abs: 1_000_000,
        beta: 1_000_000_000,
        price_factor_num: 1,
        price_factor_denom: 10,
        gamma_s: 1_000_000_000_000,
        gamma_m: 3_000_000_000_000,
        omega_m: 3_000_000_000_000,
        decimals: Decimals { alpha: 1_000_000, beta: 1_000_000_000, quote: 1_000_000_000 },
    }
}

fn pool() -> BoundPool {
    BoundPool {
        meme_reserve: Reserve { mint: MEME_MINT, vault: [1u8; 32], tokens: 500_000_000_000 },
        quote_reserve: Reserve { mint: [2u8; 32], vault: [3u8; 32], tokens: 250_000_000_000 },
        admin_fees_meme: 0,
        admin_fees_quote: 0,
        fee_vault_quote: [4u8; 32],
        creator_addr: [5u8; 32],
        fees: Fees { fee_meme_percent: MEME_FEE, fee_quote_percent: FEE },
        config: config(),
        airdropped_tokens: 0,
        locked: false,
        pool_migration: false,
        pool_key: [6u8; 32],
    }
}

fn wide(x: u64) -> Wide {
    Wide { limbs: [x, 0, 0, 0] }
}

fn trader(amount: u64) -> TokenBalance {
    TokenBalance { mint: MEME_MINT, owner: [9u8; 32], amount }
}

fn epoch() -> PointsEpoch {
    PointsEpoch { epoch_number: 1, points_per_sol_num: 1000, points_per_sol_denom: 1, padding: [0; 8] }
}

#[test]
fn buy_takes_one_percent_and_prices_the_rest() {
    let pool = pool();
    let swap = quote_swap(&pool, 10_000_000_000, 0, SwapDirection::Buy).unwrap();
    assert_eq!(swap.admin_fee_in, 100_000_000);
    assert_eq!(swap.amount_in, 9_900_000_000);
    assert_eq!(swap.amount_out, 2533);
    assert_eq!(swap.admin_fee_out, 0);
    assert!(swap.amount_in < pool.config.gamma_s - pool.quote_reserve.tokens);
}

#[test]
fn purchase_that_drains_the_base_reserve_locks_the_pool() {
    let mut pool = pool();
    let swap = quote_swap(&pool, 1_000_000_000_000, 0, SwapDirection::Buy).unwrap();
    assert_eq!(
        swap,
        SwapAmount {
            amount_in: 750_000_000_000,
            amount_out: 500_000_000_000,
            admin_fee_in: 10_000_000_000,
            admin_fee_out: 0,
        }
    );
    assert!(pool.can_apply_swap(&swap, SwapDirection::Buy));
    apply_swap(&mut pool, &swap, SwapDirection::Buy);
    assert_eq!(pool.meme_reserve.tokens, 0);
    assert!(pool.locked);
    assert!(!pool.pool_migration);
    assert_eq!(pool.quote_reserve.tokens, 1_000_000_000_000);
    assert_eq!(pool.admin_fees_quote, 10_000_000_000);
    assert_eq!(pool.admin_fees_meme, 0);
    assert!(!pool.can_apply_swap(&swap, SwapDirection::Buy));
}

#[test]
fn purchase_that_leaves_base_tokens_does_not_lock() {
    let mut pool = pool();
    let swap = quote_swap(&pool, 10_000_000_000, 0, SwapDirection::Buy).unwrap();
    apply_swap(&mut pool, &swap, SwapDirection::Buy);
    assert_eq!(pool.meme_reserve.tokens, 500_000_000_000 - 2533);
    assert_eq!(pool.quote_reserve.tokens, 259_900_000_000);
    assert_eq!(pool.admin_fees_quote, 100_000_000);
    assert!(!pool.locked);
}

#[test]
fn output_fee_leaves_the_paying_reserve() {
    let mut pool = pool();
    pool.fees.fee_meme_percent = FEE;
    let swap = quote_swap(&pool, 10_000_000_000, 0, SwapDirection::Buy).unwrap();
    assert_eq!(
        swap,
        SwapAmount {
            amount_in: 9_900_000_000,
            amount_out: 2507,
            admin_fee_in: 100_000_000,
            admin_fee_out: 26,
        }
    );
    apply_swap(&mut pool, &swap, SwapDirection::Buy);
    assert_eq!(pool.meme_reserve.tokens, 500_000_000_000 - 2533);
    assert_eq!(pool.admin_fees_meme, 26);
}

#[test]
fn unattainable_minimum_is_refused_and_pool_untouched() {
    let mut pool = pool();
    let before = pool;
    let quoted = quote_swap(&pool, 10_000_000_000, 1_000_000_000_000, SwapDirection::Buy);
    assert_eq!(quoted, Err(AmmError::SlippageExceeded));
    assert_eq!(pool, before);
    let handled = swap_y::handle(
        &mut pool,
        &trader(0),
        10_000_000_000,
        1_000_000_000_000,
        0,
        &epoch(),
        false,
    );
    assert_eq!(handled, Err(AmmError::SlippageExceeded));
    assert_eq!(pool, before);
    let sold = quote_swap(&pool, 10_000_000_000, u64::MAX, SwapDirection::Sell);
    assert_eq!(sold, Err(AmmError::SlippageExceeded));
}

#[test]
fn exact_minimum_is_accepted() {
    let pool = pool();
    assert!(quote_swap(&pool, 10_000_000_000, 2533, SwapDirection::Buy).is_ok());
    assert_eq!(
        quote_swap(&pool, 10_000_000_000, 2534, SwapDirection::Buy),
        Err(AmmError::SlippageExceeded)
    );
}

#[test]
fn round_trip_returns_less_than_was_spent() {
    let mut pool = pool();
    let spent: u64 = 100_000_000_000;
    let bought = quote_swap(&pool, spent, 0, SwapDirection::Buy).unwrap();
    assert_eq!(bought.amount_out, 29749);
    apply_swap(&mut pool, &bought, SwapDirection::Buy);
    let sold = quote_swap(&pool, bought.amount_out, 0, SwapDirection::Sell).unwrap();
    assert_eq!(
        sold,
        SwapAmount {
            amount_in: 29749,
            amount_out: 75_079_991_387,
            admin_fee_in: 0,
            admin_fee_out: 1_532_244_724,
        }
    );
    assert!(sold.amount_out < spent);
    assert!(pool.can_apply_swap(&sold, SwapDirection::Sell));
    apply_swap(&mut pool, &sold, SwapDirection::Sell);
    assert_eq!(pool.meme_reserve.tokens, 500_000_000_000);
    assert_eq!(pool.quote_reserve.tokens, 349_000_000_000 - 75_079_991_387 - 1_532_244_724);
    assert_eq!(pool.admin_fees_quote, 1_000_000_000 + 1_532_244_724);
    assert!(!pool.locked);
}

#[test]
fn input_beyond_capacity_is_paid_the_whole_reserve_without_the_solver() {
    let mut pool = pool();
    pool.config.decimals.alpha = 0;
    assert_eq!(pool.compute_delta_m(250_000_000_000, 260_000_000_000), Err(AmmError::MathOverflow));
    assert_eq!(
        quote_swap(&pool, 10_000_000_000, 0, SwapDirection::Buy),
        Err(AmmError::MathOverflow)
    );
    let swap = quote_swap(&pool, 1_000_000_000_000, 0, SwapDirection::Buy).unwrap();
    assert_eq!(swap.amount_out, pool.meme_reserve.tokens);
    assert_eq!(swap.amount_in, 750_000_000_000);
    // exactly at the capacity: 750e9 net of a one percent fee
    let at_capacity = quote_swap(&pool, 757_575_757_576, 0, SwapDirection::Buy).unwrap();
    assert_eq!(at_capacity.amount_in, 750_000_000_000);
    assert_eq!(at_capacity.amount_out, 500_000_000_000);
}

#[test]
fn sale_beyond_capacity_is_paid_the_whole_quote_reserve() {
    let mut pool = pool();
    pool.meme_reserve.tokens = 3_000_000_000_000 - 5;
    let swap = quote_swap(&pool, 100, 0, SwapDirection::Sell).unwrap();
    assert_eq!(
        swap,
        SwapAmount {
            amount_in: 5,
            amount_out: 245_000_000_000,
            admin_fee_in: 0,
            admin_fee_out: 5_000_000_000,
        }
    );
}

#[test]
fn sale_pays_each_fee_twice() {
    let mut pool = pool();
    pool.fees.fee_meme_percent = FEE;
    let swap = quote_swap(&pool, 10_000_000_000, 0, SwapDirection::Sell).unwrap();
    assert_eq!(
        swap,
        SwapAmount {
            amount_in: 9_800_000_000,
            amount_out: 136_954_240_503_322,
            admin_fee_in: 200_000_000,
            admin_fee_out: 2_794_984_500_068,
        }
    );
    // one unit pays a doubled fee of two: more than was offered
    assert_eq!(quote_swap(&pool, 1, 0, SwapDirection::Sell), Err(AmmError::MathOverflow));
}

#[test]
fn quote_is_repeatable() {
    let pool = pool();
    let before = pool;
    for direction in [SwapDirection::Buy, SwapDirection::Sell] {
        let first = quote_swap(&pool, 10_000_000_000, 0, direction);
        let second = quote_swap(&pool, 10_000_000_000, 0, direction);
        assert_eq!(first, second);
        assert!(first.is_ok());
    }
    assert_eq!(pool, before);
    assert_eq!(
        pool.swap_amounts(10_000_000_000, 0, true),
        quote_swap(&pool, 10_000_000_000, 0, SwapDirection::Buy).unwrap()
    );
    assert_eq!(
        pool.swap_amounts(10_000_000_000, 0, false),
        quote_swap(&pool, 10_000_000_000, 0, SwapDirection::Sell).unwrap()
    );
}

#[test]
fn swap_of_nothing_is_refused() {
    let pool = pool();
    assert_eq!(quote_swap(&pool, 0, 0, SwapDirection::Buy), Err(AmmError::NoZeroInput));
    assert_eq!(quote_swap(&pool, 0, 0, SwapDirection::Sell), Err(AmmError::NoZeroInput));
}

#[test]
fn reserve_above_capacity_is_an_overflow() {
    let mut pool = pool();
    pool.quote_reserve.tokens = pool.config.gamma_s + 1;
    assert_eq!(quote_swap(&pool, 10, 0, SwapDirection::Buy), Err(AmmError::MathOverflow));
    pool.meme_reserve.tokens = pool.config.gamma_m + 1;
    assert_eq!(quote_swap(&pool, 10, 0, SwapDirection::Sell), Err(AmmError::MathOverflow));
}

#[test]
fn fee_is_rounded_up() {
    assert_eq!(get_fee_amount(1000, FEE), Ok(10));
    assert_eq!(get_fee_amount(1, FEE), Ok(1));
    assert_eq!(get_fee_amount(0, FEE), Ok(0));
    assert_eq!(get_fee_amount(999_999_999, 1), Ok(1));
    assert_eq!(get_fee_amount(12345, FEE_PRECISION), Ok(12345));
    assert_eq!(get_fee_amount(10_000_000_000, FEE), Ok(100_000_000));
    assert_eq!(get_fee_amount(12345, MEME_FEE), Ok(0));
    assert_eq!(get_fee_amount(u64::MAX, u64::MAX), Err(AmmError::MathOverflow));
}

#[test]
fn fee_grows_with_the_amount_and_stays_below_it() {
    let amounts: [u64; 8] = [0, 1, 2, 99, 100, 101, 1_000_000_007, u64::MAX];
    for percent in [0u64, 1, FEE, 500_000_000, FEE_PRECISION] {
        let mut last: u64 = 0;
        for x in amounts {
            let fee = get_fee_amount(x, percent).unwrap();
            assert!(fee >= last);
            assert!(fee <= x);
            last = fee;
        }
    }
}

#[test]
fn mul_div_rounds_as_named() {
    assert_eq!(mul_div_floor(7, 3, 2), Some(10));
    assert_eq!(mul_div_ceil(7, 3, 2), Some(11));
    assert_eq!(mul_div_ceil(6, 3, 2), Some(9));
    assert_eq!(mul_div_floor(u64::MAX, u64::MAX, u64::MAX), Some(u64::MAX));
    assert_eq!(mul_div_ceil(u64::MAX, u64::MAX, u64::MAX), Some(u64::MAX));
    assert_eq!(mul_div_floor(u64::MAX, 2, 1), None);
    assert_eq!(mul_div_ceil(u64::MAX, 2, 1), None);
    assert_eq!(mul_div_floor(1, 1, 0), None);
    assert_eq!(mul_div_ceil(1, 1, 0), None);
}

#[test]
fn delta_m_has_the_value_of_the_formula() {
    let pool = pool();
    assert_eq!(pool.compute_delta_m(100_000_000_000, 200_000_000_000), Ok(15100));
    assert_eq!(pool.compute_delta_m(0, 1_000_000_000), Ok(1));
    assert_eq!(pool.compute_delta_m(10_000_000_000, 11_000_000_000), Ok(11));
    assert_eq!(pool.compute_delta_m(500_000_000_000, 501_000_000_000), Ok(501));
    assert_eq!(pool.compute_delta_m(5, 5), Ok(0));
    assert_eq!(pool.compute_delta_m(5, 4), Err(AmmError::MathOverflow));
}

#[test]
fn delta_m_falls_back_to_the_wide_formula() {
    let (alpha, beta, ad, bd) = (100_000_000_000_000_000u128, 1_000_000_000u128, 1_000_000u128, 1_000_000_000u128);
    let (s_a, s_b) = (100_000_000_000u128, 200_000_000_000u128);
    assert_eq!(delta_m1_positive_strategy(alpha, beta, ad, bd, s_a, s_b), None);
    assert_eq!(
        delta_m2_positive_strategy(alpha, beta, ad, bd, s_a, s_b),
        Some(1_500_000_000_000_100)
    );
    let mut pool = pool();
    pool.config.alpha_abs = alpha;
    assert_eq!(pool.compute_delta_m(100_000_000_000, 200_000_000_000), Ok(1_500_000_000_000_100));
    // an amount beyond 64 bits is an overflow, not a wrapped number
    pool.config.alpha_abs = 10_000_000_000_000_000_000_000;
    assert_eq!(
        delta_m2_positive_strategy(pool.config.alpha_abs, beta, ad, bd, s_a, s_b),
        Some(150_000_000_000_000_000_100)
    );
    assert_eq!(
        pool.compute_delta_m(100_000_000_000, 200_000_000_000),
        Err(AmmError::MathOverflow)
    );
}

#[test]
fn both_formulas_agree_on_a_small_window() {
    let c = config();
    let first = delta_m1_positive_strategy(
        c.alpha_abs,
        c.beta,
        c.decimals.alpha,
        c.decimals.beta,
        0,
        2_000_000_000,
    );
    let second = delta_m2_positive_strategy(
        c.alpha_abs,
        c.beta,
        c.decimals.alpha,
        c.decimals.beta,
        0,
        2_000_000_000,
    );
    assert_eq!(first, Some(4));
    assert_eq!(second, Some(4));
}

#[test]
fn delta_m_never_falls_as_the_window_grows_or_rises() {
    let pool = pool();
    let s_a: u64 = 250_000_000_000;
    let mut last: u64 = 0;
    for step in 0..40u64 {
        let s_b = s_a + step * 777_777_777;
        let amount = pool.compute_delta_m(s_a, s_b).unwrap();
        assert!(amount >= last);
        last = amount;
    }
    let width: u64 = 1_000_000_000;
    let mut last: u64 = 0;
    for step in 0..40u64 {
        let s = step * 20_000_000_000;
        let amount = pool.compute_delta_m(s, s + width).unwrap();
        assert!(amount >= last);
        last = amount;
    }
    assert!(
        pool.compute_delta_m(10_000_000_000, 11_000_000_000).unwrap()
            < pool.compute_delta_m(500_000_000_000, 501_000_000_000).unwrap()
    );
}

#[test]
fn delta_s_has_the_value_of_the_formula() {
    let pool = pool();
    assert_eq!(pool.compute_delta_s(100_000_000_000, 1_000_000_000), Ok(44_620_473_600_497));
    assert_eq!(
        delta_s_positive_strategy(
            1_000_000,
            1_000_000_000,
            1_000_000,
            1_000_000_000,
            349_000_000_000,
            29749
        ),
        Some(76_612_236_111)
    );
    let mut flat = pool;
    flat.config.alpha_abs = 0;
    assert_eq!(flat.compute_delta_s(100_000_000_000, 1_000_000_000), Err(AmmError::MathOverflow));
}

#[test]
fn root_is_taken_at_a_coarser_scale_when_it_overflows() {
    assert_eq!(
        delta_s_positive_strategy(
            100_000_000,
            1_000_000_000,
            1_000_000,
            1_000_000_000,
            10_000_000_000_000_000_000,
            1_000_000_000
        ),
        Some(999_999)
    );
    assert_eq!(
        delta_s_positive_strategy(
            10_000_000_000,
            1_000_000_000,
            1_000_000,
            1_000_000_000,
            100_000_000_000,
            10_000_000_000_000_000_000
        ),
        Some(44_721_259_550_007_597)
    );
}

#[test]
fn root_term_at_full_precision() {
    // sqrt(3 * 3 * 4 + 2 * 2 * 7) = sqrt(64)
    assert_eq!(compute_a_positive(wide(3), wide(4), wide(7), wide(2)), Some(wide(8)));
    // rounded down: sqrt(5 * 5 * 1 + 1 * 1 * 1) = sqrt(26)
    assert_eq!(compute_a_positive(wide(5), wide(1), wide(1), wide(1)), Some(wide(5)));
}

#[test]
fn multiply_divide_takes_the_factors_in_pairs() {
    assert_eq!(
        multiply_divide(vec![wide(6), wide(7)], vec![wide(3), wide(2)]),
        Some(wide(7))
    );
    // 5 / 2 is rounded down before the next factor
    assert_eq!(
        multiply_divide(vec![wide(5), wide(4)], vec![wide(2), wide(1)]),
        Some(wide(8))
    );
    assert_eq!(multiply_divide(vec![wide(5), wide(4)], vec![wide(2)]), Some(wide(8)));
    assert_eq!(multiply_divide(vec![wide(9)], vec![wide(2), wide(2)]), Some(wide(2)));
    assert_eq!(multiply_divide(vec![], vec![]), Some(wide(1)));
    assert_eq!(multiply_divide(vec![wide(5)], vec![wide(0)]), None);
    let top = Wide { limbs: [0, 0, 0, 1 << 63] };
    assert_eq!(multiply_divide(vec![top, wide(2)], vec![wide(1), wide(4)]), None);
    assert_eq!(
        multiply_divide(vec![top, wide(2)], vec![wide(2), wide(1)]),
        Some(top)
    );
    let carry = Wide { limbs: [0, 1, 0, 0] };
    assert_eq!(
        multiply_divide(vec![wide(1 << 63), wide(4)], vec![wide(2), wide(1)]),
        Some(carry)
    );
}

#[test]
fn scale_counts_digits() {
    assert_eq!(compute_scale(0), 1);
    assert_eq!(compute_scale(9), 1);
    assert_eq!(compute_scale(10), 2);
    assert_eq!(compute_scale(999), 3);
    assert_eq!(compute_scale(1_000), 4);
    assert_eq!(compute_scale(u128::MAX), 39);
}

#[test]
fn decimals_follow_the_table() {
    for gap in 0..=4u64 {
        assert_eq!(compute_decimals(gap), Err(AmmError::ScaleTooLow));
    }
    assert_eq!(compute_decimals(5), Ok(100_000_000));
    assert_eq!(compute_decimals(6), Ok(10_000_000));
    assert_eq!(compute_decimals(7), Ok(1_000_000));
    assert_eq!(compute_decimals(8), Ok(100_000));
    assert_eq!(compute_decimals(9), Ok(10_000));
    assert_eq!(compute_decimals(10), Ok(1_000));
    assert_eq!(compute_decimals(11), Ok(100));
    assert_eq!(compute_decimals(12), Ok(10));
    assert_eq!(compute_decimals(13), Ok(1));
    assert_eq!(compute_decimals(u64::MAX), Ok(1));
}

#[test]
fn slope_and_intercept_checks() {
    let cap: u128 = 3_000_000_000_000;
    assert_eq!(check_slope(cap, cap, 3, 2), Ok(()));
    assert_eq!(check_slope(cap, cap, 1, 1), Err(AmmError::CurveNotPositivelySloped));
    assert_eq!(check_slope(cap, cap, 1, 10), Err(AmmError::CurveNotPositivelySloped));
    assert_eq!(check_slope(cap, cap, 3, 0), Err(AmmError::MathOverflow));
    assert_eq!(check_slope(cap, u128::MAX, 2, 1), Err(AmmError::MathOverflow));
    assert_eq!(check_intercept(cap, cap, 3, 2), Ok(()));
    assert_eq!(check_intercept(cap, cap, 2, 1), Err(AmmError::InterceptSignViolation));
    assert_eq!(check_intercept(cap, cap, 5, 2), Err(AmmError::InterceptSignViolation));
    assert_eq!(check_intercept(cap, cap, 3, 0), Err(AmmError::MathOverflow));
    assert_eq!(check_intercept(u128::MAX, cap, 3, 2), Ok(()));
}

#[test]
fn slope_is_derived_at_the_scale_of_its_digits() {
    let cap: u128 = 3_000_000_000_000;
    let unit: u128 = 1_000_000_000;
    assert_eq!(
        compute_alpha_abs(1_000_000_000_000, unit, cap, cap, 3, 2),
        Ok((30_000_000_000_000, 10_000_000))
    );
    assert_eq!(
        compute_alpha_abs(1_000_000_000, unit, cap, cap, 3, 2),
        Ok((30_000_000_000_000, 10))
    );
    assert_eq!(
        compute_alpha_abs(100_000_000, unit, cap, cap, 3, 2),
        Ok((300_000_000_000_000, 1))
    );
    assert_eq!(
        compute_alpha_abs(10_000_000_000_000, unit, cap, cap, 3, 2),
        Err(AmmError::ScaleTooLow)
    );
    assert_eq!(
        compute_alpha_abs(10_000_000_000_000_000, unit, cap, cap, 3, 2),
        Err(AmmError::CapacityOutOfRelativeLimit)
    );
    assert_eq!(
        compute_alpha_abs(1_000_000_000_000, 1, cap, cap, 3, 2),
        Err(AmmError::CapacityOutOfRelativeLimit)
    );
    assert_eq!(
        compute_alpha_abs(1_000_000_000_000, unit, cap, cap, 1, 10),
        Err(AmmError::CurveNotPositivelySloped)
    );
    assert_eq!(
        compute_alpha_abs(1_000_000_000_000, unit, cap, cap, 3, 0),
        Err(AmmError::MathOverflow)
    );
}

#[test]
fn intercept_is_derived_at_the_given_scale() {
    let cap: u128 = 3_000_000_000_000;
    let unit: u128 = 1_000_000_000;
    assert_eq!(
        compute_beta(1_000_000_000_000, unit, cap, cap, 3, 2, unit),
        Ok(1_500_000_000_000_000_000)
    );
    assert_eq!(compute_beta(1_000_000_000_000, unit, cap, cap, 3, 2, 1), Ok(1_500_000_000));
    assert_eq!(
        compute_beta(1_000_000_000_000, unit, cap, cap, 2, 1, unit),
        Err(AmmError::InterceptSignViolation)
    );
    assert_eq!(compute_beta(0, unit, cap, cap, 3, 2, unit), Err(AmmError::MathOverflow));
}

#[test]
fn curve_of_a_new_pool() {
    let derived = derive_curve_params(1_000_000_000_000, 3_000_000_000_000, 3_000_000_000_000, 3, 2);
    assert_eq!(
        derived,
        Ok(Config {
            alpha_abs: 30_000_000_000_000,
            beta: 1_500_000_000_000_000_000,
            price_factor_num: 3,
            price_factor_denom: 2,
            gamma_s: 1_000_000_000_000,
            gamma_m: 3_000_000_000_000,
            omega_m: 3_000_000_000_000,
            decimals: Decimals { alpha: 10_000_000, beta: 1_000_000_000, quote: 1_000_000_000 },
        })
    );
    assert_eq!(
        derive_curve_params(1_000_000_000_000, 3_000_000_000_000, 3_000_000_000_000, 1, 1),
        Err(AmmError::CurveNotPositivelySloped)
    );
    assert_eq!(
        derive_curve_params(1_000_000_000_000, 3_000_000_000_000, 3_000_000_000_000, 2, 1),
        Err(AmmError::InterceptSignViolation)
    );
    assert_eq!(
        derive_curve_params(1_000_000_000_000, 3_000_000_000_000, 3_000_000_000_000, 3, 0),
        Err(AmmError::MathOverflow)
    );
}

#[test]
fn sale_is_decided_in_order() {
    let mut pool = pool();
    let before = pool;
    let stranger = TokenBalance { mint: [8u8; 32], owner: [9u8; 32], amount: 0 };
    assert_eq!(swap_x::handle(&mut pool, &stranger, 0, 0), Err(AmmError::AssetMismatch));
    assert_eq!(swap_x::handle(&mut pool, &trader(0), 0, 0), Err(AmmError::NoZeroInput));
    assert_eq!(swap_x::handle(&mut pool, &trader(50), 100, 0), Err(AmmError::InsufficientBalance));
    pool.locked = true;
    assert_eq!(swap_x::handle(&mut pool, &trader(50), 100, 0), Err(AmmError::InsufficientBalance));
    assert_eq!(swap_x::handle(&mut pool, &trader(100), 100, 0), Err(AmmError::PoolIsLocked));
    pool.locked = false;
    assert_eq!(pool, before);
    // the curve asks for more than the quote reserve holds
    assert_eq!(
        swap_x::handle(&mut pool, &trader(10_000_000_000), 10_000_000_000, 0),
        Err(AmmError::MathOverflow)
    );
    assert_eq!(pool, before);
    let swap = swap_x::handle(&mut pool, &trader(29749), 29749, 0).unwrap();
    assert_eq!(swap.amount_out, 97_018_599_995);
    assert_eq!(swap.admin_fee_out, 1_979_971_430);
    assert_eq!(pool.meme_reserve.tokens, 500_000_000_000 + 29749);
    assert_eq!(pool.quote_reserve.tokens, 250_000_000_000 - swap.amount_out - swap.admin_fee_out);
    assert_eq!(pool.admin_fees_quote, swap.admin_fee_out);
    assert!(!pool.locked);
}

#[test]
fn purchase_is_decided_in_order() {
    let mut pool = pool();
    let before = pool;
    let stranger = TokenBalance { mint: [8u8; 32], owner: [9u8; 32], amount: 0 };
    assert_eq!(
        swap_y::handle(&mut pool, &stranger, 0, 0, 0, &epoch(), true),
        Err(AmmError::AssetMismatch)
    );
    assert_eq!(
        swap_y::handle(&mut pool, &trader(0), 0, 0, 0, &epoch(), true),
        Err(AmmError::NoZeroInput)
    );
    pool.locked = true;
    assert_eq!(
        swap_y::handle(&mut pool, &trader(0), 100, 0, 0, &epoch(), true),
        Err(AmmError::PoolIsLocked)
    );
    pool.locked = false;
    let no_rate = PointsEpoch { points_per_sol_denom: 0, ..epoch() };
    assert_eq!(
        swap_y::handle(&mut pool, &trader(0), 100, 0, 0, &no_rate, true),
        Err(AmmError::MathOverflow)
    );
    assert_eq!(pool, before);
    let bought = swap_y::handle(&mut pool, &trader(0), 10_000_000_000, 0, 5_000, &epoch(), true);
    assert_eq!(
        bought,
        Ok(Purchase {
            swap: SwapAmount {
                amount_in: 9_900_000_000,
                amount_out: 2533,
                admin_fee_in: 100_000_000,
                admin_fee_out: 0,
            },
            referrer_points: 5_000,
        })
    );
    assert_eq!(pool.quote_reserve.tokens, 259_900_000_000);
    let drained = swap_y::handle(&mut pool, &trader(0), 1_000_000_000_000, 0, u64::MAX, &epoch(), false)
        .unwrap();
    assert_eq!(drained.referrer_points, 0);
    assert_eq!(drained.swap.amount_out, 500_000_000_000 - 2533);
    assert_eq!(pool.meme_reserve.tokens, 0);
    assert!(pool.locked);
}

#[test]
fn points_go_to_the_referrer_up_to_what_is_left() {
    assert_eq!(swap_y::get_swap_points(100, &epoch()), 100_000);
    let thirds = PointsEpoch { points_per_sol_num: 1, points_per_sol_denom: 3, ..epoch() };
    assert_eq!(swap_y::get_swap_points(100, &thirds), 33);
    assert_eq!(thirds.swap_points(100), Some(33));
    assert_eq!(PointsEpoch { points_per_sol_denom: 0, ..epoch() }.swap_points(100), None);
    assert_eq!(PointsEpoch { points_per_sol_num: u64::MAX, ..epoch() }.swap_points(2), None);
    assert_eq!(clamp_referrer_points(10_000, 100_000, true), 10_000);
    assert_eq!(clamp_referrer_points(1_000_000, 100_000, true), 100_000);
    assert_eq!(clamp_referrer_points(1_000_000, 100_000, false), 0);
    assert_eq!(clamp_referrer_points(0, 100_000, true), 0);
    assert_eq!(clamp_referrer_points(5, 0, true), 0);
}

#[test]
fn books_refuse_what_they_cannot_hold() {
    let mut pool = pool();
    let swap = SwapAmount { amount_in: 1, amount_out: 500_000_000_000, admin_fee_in: 0, admin_fee_out: 1 };
    assert!(!pool.can_apply_swap(&swap, SwapDirection::Buy));
    let fits = SwapAmount { amount_in: 1, amount_out: 499_999_999_999, admin_fee_in: 0, admin_fee_out: 1 };
    assert!(pool.can_apply_swap(&fits, SwapDirection::Buy));
    assert!(!pool.can_apply_swap(&fits, SwapDirection::Sell));
    pool.admin_fees_meme = u64::MAX;
    assert!(!pool.can_apply_swap(&fits, SwapDirection::Buy));
    pool.admin_fees_meme = 0;
    pool.quote_reserve.tokens = u64::MAX;
    assert!(!pool.can_apply_swap(&fits, SwapDirection::Buy));
    pool.quote_reserve.tokens = 0;
    pool.locked = true;
    assert!(!pool.can_apply_swap(&fits, SwapDirection::Buy));
    let wrapping = SwapAmount { amount_in: 0, amount_out: u64::MAX, admin_fee_in: 0, admin_fee_out: 1 };
    pool.locked = false;
    assert!(!pool.can_apply_swap(&wrapping, SwapDirection::Buy));
}

#[test]
fn airdrop_is_closed_before_it_is_read() {
    let mut staking = StakingPool { to_airdrop: 1_000_000, padding: [3; 32] };
    let amount = send_airdrop_funds::handle(&mut staking);
    assert_eq!(amount, 0);
    assert_eq!(staking, StakingPool { to_airdrop: 0, padding: [3; 32] });
}

#[test]
fn keys_are_compared_byte_for_byte() {
    let mut other = MEME_MINT;
    assert!(same_key(&MEME_MINT, &other));
    other[31] = 0;
    assert!(!same_key(&MEME_MINT, &other));
    other[31] = 7;
    other[0] = 8;
    assert!(!same_key(&MEME_MINT, &other));
}

#[test]
fn defaults_are_empty() {
    assert_eq!(Fees::default(), Fees { fee_meme_percent: 0, fee_quote_percent: 0 });
    assert_eq!(Decimals::default(), Decimals { alpha: 0, beta: 0, quote: 0 });
    assert_eq!(Config::default().gamma_s, 0);
    assert_eq!(pool().balances(), (500_000_000_000, 250_000_000_000));
}
