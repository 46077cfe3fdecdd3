use crate::err::AmmError;
use crate::models::curve::{
    delta_m1_positive_strategy, delta_m1_spec, delta_m2_positive_strategy, delta_m2_spec,
    delta_s_positive_strategy, delta_s_spec,
};
use crate::models::fees::{fee_result, Fees};
use vstd::prelude::*;

verus! {

/// One side of a pool: which asset, where it is kept, and how much of it the
/// curve holds.
#[derive(Clone, Copy, Debug, PartialEq, Eq)]
pub struct Reserve {
    pub mint: [u8; 32],
    pub vault: [u8; 32],
    pub tokens: u64,
}

/// What a swap moves: the net amounts in and out, and the fee taken on each
/// leg.
#[derive(Clone, Copy, Debug, PartialEq, Eq, Structural)]
pub struct SwapAmount {
    pub amount_in: u64,
    pub amount_out: u64,
    pub admin_fee_in: u64,
    pub admin_fee_out: u64,
}

/// Which way a swap goes.
#[derive(Clone, Copy, Debug, PartialEq, Eq, Structural)]
pub enum SwapDirection {
    /// The quote asset comes in, the base asset goes out.
    Buy,
    /// The base asset comes in, the quote asset goes out.
    Sell,
}

/// The scales at which a curve's numbers are stored.
#[derive(Clone, Copy, Debug, PartialEq, Eq, Structural)]
pub struct Decimals {
    pub alpha: u128,
    pub beta: u128,
    pub quote: u64,
}

/// A curve `price = alpha_abs * supply + beta` and the capacities it is
/// defined over.
#[derive(Clone, Copy, Debug, PartialEq, Eq, Structural)]
pub struct Config {
    pub alpha_abs: u128,
    pub beta: u128,
    pub price_factor_num: u64,
    pub price_factor_denom: u64,
    pub gamma_s: u64,
    pub gamma_m: u64,
    pub omega_m: u64,
    pub decimals: Decimals,
}

impl Default for Decimals {
    fn default() -> (r: Self)
        ensures
            r == (Decimals { alpha: 0, beta: 0, quote: 0 }),
    {
        Decimals { alpha: 0, beta: 0, quote: 0 }
    }
}

impl Default for Config {
    fn default() -> (r: Self)
        ensures
            r == (Config {
                alpha_abs: 0,
                beta: 0,
                price_factor_num: 0,
                price_factor_denom: 0,
                gamma_s: 0,
                gamma_m: 0,
                omega_m: 0,
                decimals: Decimals { alpha: 0, beta: 0, quote: 0 },
            }),
    {
        Config {
            alpha_abs: 0,
            beta: 0,
            price_factor_num: 0,
            price_factor_denom: 0,
            gamma_s: 0,
            gamma_m: 0,
            omega_m: 0,
            decimals: Decimals { alpha: 0, beta: 0, quote: 0 },
        }
    }
}

/// A solver result as an amount: `MathOverflow` where no strategy gave one or
/// it exceeds 64 bits.
pub open spec fn amount_or_overflow(found: Option<u128>) -> Result<u64, AmmError> {
    match found {
        Some(v) => if v <= u64::MAX {
            Ok(v as u64)
        } else {
            Err(AmmError::MathOverflow)
        },
        None => Err(AmmError::MathOverflow),
    }
}

impl Config {
    /// The base-asset amount between quote-reserve levels `s_a` and `s_b`: the
    /// direct formula where it can be computed, else the single-quotient one.
    pub open spec fn delta_m(&self, s_a: u64, s_b: u64) -> Result<u64, AmmError> {
        let first = delta_m1_spec(
            self.alpha_abs,
            self.beta,
            self.decimals.alpha,
            self.decimals.beta,
            s_a as u128,
            s_b as u128,
        );
        if first is Some {
            amount_or_overflow(first)
        } else {
            amount_or_overflow(
                delta_m2_spec(
                    self.alpha_abs,
                    self.beta,
                    self.decimals.alpha,
                    self.decimals.beta,
                    s_a as u128,
                    s_b as u128,
                ),
            )
        }
    }

    /// The quote-reserve change that goes with the base-asset amount `delta_m`
    /// at quote-reserve level `s_b`.
    pub open spec fn delta_s(&self, s_b: u64, delta_m: u64) -> Result<u64, AmmError> {
        amount_or_overflow(
            delta_s_spec(
                self.alpha_abs,
                self.beta,
                self.decimals.alpha,
                self.decimals.beta,
                s_b as u128,
                delta_m as u128,
            ),
        )
    }
}

/// A fee on one leg: the fee at the pool's rate times `times`, and what is
/// left of `amount` after it. `MathOverflow` where the fee exceeds 64 bits or
/// the amount.
pub open spec fn leg_fee(amount: u64, percent: u64, times: u64) -> Result<(u64, u64), AmmError> {
    match fee_result(amount, percent) {
        Ok(fee) => if fee * times <= amount {
            Ok(((fee * times) as u64, (amount - fee * times) as u64))
        } else {
            Err(AmmError::MathOverflow)
        },
        Err(_) => Err(AmmError::MathOverflow),
    }
}

/// A bonding-curve pool: its two reserves, the fees it has accrued, its curve
/// and its state.
#[derive(Clone, Copy, Debug, PartialEq, Eq)]
pub struct BoundPool {
    pub meme_reserve: Reserve,
    pub quote_reserve: Reserve,
    pub admin_fees_meme: u64,
    pub admin_fees_quote: u64,
    pub fee_vault_quote: [u8; 32],
    pub creator_addr: [u8; 32],
    pub fees: Fees,
    pub config: Config,
    pub airdropped_tokens: u64,
    pub locked: bool,
    pub pool_migration: bool,
    pub pool_key: [u8; 32],
}

impl BoundPool {
    /// Neither reserve exceeds its capacity and no fee rate exceeds the whole.
    pub open spec fn wf(&self) -> bool {
        &&& self.meme_reserve.tokens <= self.config.gamma_m
        &&& self.quote_reserve.tokens <= self.config.gamma_s
        &&& self.fees.wf()
    }

    /// What buying with `delta_s` of the quote asset gives.
    ///
    /// The fee on the way in is taken once at the quote rate. Where what is
    /// left fills the quote capacity, only the room is taken and the whole
    /// base reserve goes out; else the curve gives the amount. The fee on the
    /// way out is taken once at the base rate. `SlippageExceeded` where the net
    /// output is below `min_delta_m`; `MathOverflow` where the quote reserve
    /// exceeds its capacity, a fee cannot be taken or the solver fails.
    pub open spec fn buy_quote(&self, delta_s: u64, min_delta_m: u64) -> Result<
        SwapAmount,
        AmmError,
    > {
        let m_t0 = self.meme_reserve.tokens;
        let s_t0 = self.quote_reserve.tokens;
        if s_t0 > self.config.gamma_s {
            Err(AmmError::MathOverflow)
        } else {
            let max_delta_s = (self.config.gamma_s - s_t0) as u64;
            match leg_fee(delta_s, self.fees.fee_quote_percent, 1) {
                Err(e) => Err(e),
                Ok((admin_fee_in, offered)) => {
                    let net_delta_s = if offered >= max_delta_s {
                        max_delta_s
                    } else {
                        offered
                    };
                    let gross = if offered >= max_delta_s {
                        Ok(m_t0)
                    } else {
                        self.config.delta_m(s_t0, (s_t0 + net_delta_s) as u64)
                    };
                    match gross {
                        Err(e) => Err(e),
                        Ok(delta_m) => match leg_fee(delta_m, self.fees.fee_meme_percent, 1) {
                            Err(e) => Err(e),
                            Ok((admin_fee_out, net_delta_m)) => if net_delta_m < min_delta_m {
                                Err(AmmError::SlippageExceeded)
                            } else {
                                Ok(
                                    SwapAmount {
                                        amount_in: net_delta_s,
                                        amount_out: net_delta_m,
                                        admin_fee_in,
                                        admin_fee_out,
                                    },
                                )
                            },
                        },
                    }
                },
            }
        }
    }

    /// What selling `delta_m` of the base asset gives.
    ///
    /// As `buy_quote` with the sides exchanged, but each fee is taken at twice
    /// its rate, and where the curve decides it is asked for the quote-reserve
    /// change that goes with the net input.
    pub open spec fn sell_quote(&self, delta_m: u64, min_delta_s: u64) -> Result<
        SwapAmount,
        AmmError,
    > {
        let m_b = self.meme_reserve.tokens;
        let s_b = self.quote_reserve.tokens;
        if m_b > self.config.gamma_m {
            Err(AmmError::MathOverflow)
        } else {
            let max_delta_m = (self.config.gamma_m - m_b) as u64;
            match leg_fee(delta_m, self.fees.fee_meme_percent, 2) {
                Err(e) => Err(e),
                Ok((admin_fee_in, offered)) => {
                    let net_delta_m = if offered >= max_delta_m {
                        max_delta_m
                    } else {
                        offered
                    };
                    let gross = if offered >= max_delta_m {
                        Ok(s_b)
                    } else {
                        self.config.delta_s(s_b, net_delta_m)
                    };
                    match gross {
                        Err(e) => Err(e),
                        Ok(delta_s) => match leg_fee(delta_s, self.fees.fee_quote_percent, 2) {
                            Err(e) => Err(e),
                            Ok((admin_fee_out, net_delta_s)) => if net_delta_s < min_delta_s {
                                Err(AmmError::SlippageExceeded)
                            } else {
                                Ok(
                                    SwapAmount {
                                        amount_in: net_delta_m,
                                        amount_out: net_delta_s,
                                        admin_fee_in,
                                        admin_fee_out,
                                    },
                                )
                            },
                        },
                    }
                },
            }
        }
    }

    /// What a swap of `amount_in` gives: `NoZeroInput` for a swap of nothing,
    /// else the quote of its direction.
    pub open spec fn quote(&self, amount_in: u64, min_amount_out: u64, direction: SwapDirection)
        -> Result<SwapAmount, AmmError> {
        if amount_in == 0 {
            Err(AmmError::NoZeroInput)
        } else {
            match direction {
                SwapDirection::Buy => self.buy_quote(amount_in, min_amount_out),
                SwapDirection::Sell => self.sell_quote(amount_in, min_amount_out),
            }
        }
    }

    /// The base-asset amount obtainable when the quote reserve moves from
    /// `s_a` up to `s_b`, rounded down.
    pub fn compute_delta_m(&self, s_a: u64, s_b: u64) -> (r: Result<u64, AmmError>)
        ensures
            r == self.config.delta_m(s_a, s_b),
    {
        let alpha_abs = self.config.alpha_abs;
        let beta = self.config.beta;
        let alpha_decimals = self.config.decimals.alpha;
        let beta_decimals = self.config.decimals.beta;
        let first = delta_m1_positive_strategy(
            alpha_abs,
            beta,
            alpha_decimals,
            beta_decimals,
            s_a as u128,
            s_b as u128,
        );
        let found = match first {
            Some(delta_m) => Some(delta_m),
            None => delta_m2_positive_strategy(
                alpha_abs,
                beta,
                alpha_decimals,
                beta_decimals,
                s_a as u128,
                s_b as u128,
            ),
        };
        amount_of(found)
    }

    /// The quote-reserve change that goes with the base-asset amount
    /// `delta_m` at quote-reserve level `s_b`, rounded down.
    pub fn compute_delta_s(&self, s_b: u64, delta_m: u64) -> (r: Result<u64, AmmError>)
        ensures
            r == self.config.delta_s(s_b, delta_m),
    {
        amount_of(
            delta_s_positive_strategy(
                self.config.alpha_abs,
                self.config.beta,
                self.config.decimals.alpha,
                self.config.decimals.beta,
                s_b as u128,
                delta_m as u128,
            ),
        )
    }

    /// The base and the quote balance.
    pub fn balances(&self) -> (r: (u64, u64))
        ensures
            r == (self.meme_reserve.tokens, self.quote_reserve.tokens),
    {
        (self.meme_reserve.tokens, self.quote_reserve.tokens)
    }

    /// Quotes a purchase of the base asset with `delta_s` of the quote asset.
    pub fn buy_meme_swap_amounts(&self, delta_s: u64, min_delta_m: u64) -> (r: Result<
        SwapAmount,
        AmmError,
    >)
        ensures
            r == self.buy_quote(delta_s, min_delta_m),
    {
        let (m_t0, s_t0) = self.balances();
        if s_t0 > self.config.gamma_s {
            return Err(AmmError::MathOverflow);
        }
        let max_delta_s: u64 = self.config.gamma_s - s_t0;
        let (admin_fee_in, offered) = take_fee(delta_s, self.fees.fee_quote_percent, 1)?;
        let is_max = offered >= max_delta_s;
        let net_delta_s: u64 = if is_max {
            max_delta_s
        } else {
            offered
        };
        let delta_m: u64 = if is_max {
            m_t0
        } else {
            self.compute_delta_m(s_t0, s_t0 + net_delta_s)?
        };
        let (admin_fee_out, net_delta_m) = take_fee(delta_m, self.fees.fee_meme_percent, 1)?;
        if net_delta_m < min_delta_m {
            return Err(AmmError::SlippageExceeded);
        }
        Ok(SwapAmount { amount_in: net_delta_s, amount_out: net_delta_m, admin_fee_in, admin_fee_out })
    }

    /// Quotes a sale of `delta_m` of the base asset.
    pub fn sell_meme_swap_amounts(&self, delta_m: u64, min_delta_s: u64) -> (r: Result<
        SwapAmount,
        AmmError,
    >)
        ensures
            r == self.sell_quote(delta_m, min_delta_s),
    {
        let (m_b, s_b) = self.balances();
        if m_b > self.config.gamma_m {
            return Err(AmmError::MathOverflow);
        }
        let max_delta_m: u64 = self.config.gamma_m - m_b;
        let (admin_fee_in, offered) = take_fee(delta_m, self.fees.fee_meme_percent, 2)?;
        let is_max = offered >= max_delta_m;
        let net_delta_m: u64 = if is_max {
            max_delta_m
        } else {
            offered
        };
        let delta_s: u64 = if is_max {
            s_b
        } else {
            self.compute_delta_s(s_b, net_delta_m)?
        };
        let (admin_fee_out, net_delta_s) = take_fee(delta_s, self.fees.fee_quote_percent, 2)?;
        if net_delta_s < min_delta_s {
            return Err(AmmError::SlippageExceeded);
        }
        Ok(SwapAmount { amount_in: net_delta_m, amount_out: net_delta_s, admin_fee_in, admin_fee_out })
    }

    /// The quote of a swap that is known to succeed.
    pub fn swap_amounts(&self, coin_in_amount: u64, coin_out_min_value: u64, buy_meme: bool) -> (r:
        SwapAmount)
        requires
            buy_meme ==> self.buy_quote(coin_in_amount, coin_out_min_value) is Ok,
            !buy_meme ==> self.sell_quote(coin_in_amount, coin_out_min_value) is Ok,
        ensures
            buy_meme ==> Ok::<SwapAmount, AmmError>(r) == self.buy_quote(
                coin_in_amount,
                coin_out_min_value,
            ),
            !buy_meme ==> Ok::<SwapAmount, AmmError>(r) == self.sell_quote(
                coin_in_amount,
                coin_out_min_value,
            ),
    {
        let quoted = if buy_meme {
            self.buy_meme_swap_amounts(coin_in_amount, coin_out_min_value)
        } else {
            self.sell_meme_swap_amounts(coin_in_amount, coin_out_min_value)
        };
        match quoted {
            Ok(swap) => swap,
            Err(_) => vstd::pervasive::unreached(),
        }
    }

    /// Whether the swap can be entered in the pool's books: the pool still
    /// trades, the paying reserve covers the output with its fee, and no
    /// balance leaves 64 bits.
    pub open spec fn can_apply(&self, swap: SwapAmount, direction: SwapDirection) -> bool {
        &&& !self.locked
        &&& match direction {
            SwapDirection::Buy => {
                &&& self.admin_fees_quote + swap.admin_fee_in <= u64::MAX
                &&& self.admin_fees_meme + swap.admin_fee_out <= u64::MAX
                &&& self.quote_reserve.tokens + swap.amount_in <= u64::MAX
                &&& swap.amount_out + swap.admin_fee_out <= self.meme_reserve.tokens
            },
            SwapDirection::Sell => {
                &&& self.admin_fees_meme + swap.admin_fee_in <= u64::MAX
                &&& self.admin_fees_quote + swap.admin_fee_out <= u64::MAX
                &&& self.meme_reserve.tokens + swap.amount_in <= u64::MAX
                &&& swap.amount_out + swap.admin_fee_out <= self.quote_reserve.tokens
            },
        }
    }

    /// The pool after the swap: each fee is added to the accrued fees of its
    /// asset, the net input to the receiving reserve, and the net output with
    /// its fee is taken from the paying reserve. A purchase that takes the
    /// last of the base reserve locks the pool. Nothing else changes.
    pub open spec fn applied(&self, swap: SwapAmount, direction: SwapDirection) -> BoundPool
        recommends
            self.can_apply(swap, direction),
    {
        match direction {
            SwapDirection::Buy => {
                let left = (self.meme_reserve.tokens - (swap.amount_out + swap.admin_fee_out)) as u64;
                BoundPool {
                    admin_fees_quote: (self.admin_fees_quote + swap.admin_fee_in) as u64,
                    admin_fees_meme: (self.admin_fees_meme + swap.admin_fee_out) as u64,
                    quote_reserve: Reserve {
                        tokens: (self.quote_reserve.tokens + swap.amount_in) as u64,
                        ..self.quote_reserve
                    },
                    meme_reserve: Reserve { tokens: left, ..self.meme_reserve },
                    locked: self.locked || left == 0,
                    ..*self
                }
            },
            SwapDirection::Sell => BoundPool {
                admin_fees_meme: (self.admin_fees_meme + swap.admin_fee_in) as u64,
                admin_fees_quote: (self.admin_fees_quote + swap.admin_fee_out) as u64,
                meme_reserve: Reserve {
                    tokens: (self.meme_reserve.tokens + swap.amount_in) as u64,
                    ..self.meme_reserve
                },
                quote_reserve: Reserve {
                    tokens: (self.quote_reserve.tokens - (swap.amount_out + swap.admin_fee_out)) as u64,
                    ..self.quote_reserve
                },
                ..*self
            },
        }
    }

    /// Tests whether `apply_swap` may be called.
    pub fn can_apply_swap(&self, swap: &SwapAmount, direction: SwapDirection) -> (b: bool)
        ensures
            b == self.can_apply(*swap, direction),
    {
        if self.locked {
            return false;
        }
        let (fees_in, fees_out, receiving, paying) = match direction {
            SwapDirection::Buy => (
                self.admin_fees_quote,
                self.admin_fees_meme,
                self.quote_reserve.tokens,
                self.meme_reserve.tokens,
            ),
            SwapDirection::Sell => (
                self.admin_fees_meme,
                self.admin_fees_quote,
                self.meme_reserve.tokens,
                self.quote_reserve.tokens,
            ),
        };
        let owed = swap.amount_out.checked_add(swap.admin_fee_out);
        fees_in.checked_add(swap.admin_fee_in).is_some() && fees_out.checked_add(
            swap.admin_fee_out,
        ).is_some() && receiving.checked_add(swap.amount_in).is_some() && match owed {
            Some(total) => total <= paying,
            None => false,
        }
    }
}

/// Narrows a solver result to an amount.
fn amount_of(found: Option<u128>) -> (r: Result<u64, AmmError>)
    ensures
        r == amount_or_overflow(found),
{
    match found {
        Some(v) => if v <= u64::MAX as u128 {
            Ok(v as u64)
        } else {
            Err(AmmError::MathOverflow)
        },
        None => Err(AmmError::MathOverflow),
    }
}

/// Takes the fee of one leg, `times` the rate, and returns it with the rest.
fn take_fee(amount: u64, percent: u64, times: u64) -> (r: Result<(u64, u64), AmmError>)
    ensures
        r == leg_fee(amount, percent, times),
{
    let once: u64 = match crate::models::fees::get_fee_amount(amount, percent) {
        Ok(fee) => fee,
        Err(_) => {
            return Err(AmmError::MathOverflow);
        },
    };
    match once.checked_mul(times) {
        Some(fee) => if fee <= amount {
            Ok((fee, amount - fee))
        } else {
            Err(AmmError::MathOverflow)
        },
        None => Err(AmmError::MathOverflow),
    }
}

/// Quotes a swap against the pool as it stands. The pool is only read, and
/// the quote depends on nothing but the pool and the arguments: the same call
/// on the same pool gives the same quote.
pub fn quote_swap(
    pool: &BoundPool,
    amount_in: u64,
    min_amount_out: u64,
    direction: SwapDirection,
) -> (r: Result<SwapAmount, AmmError>)
    ensures
        r == pool.quote(amount_in, min_amount_out, direction),
{
    if amount_in == 0 {
        return Err(AmmError::NoZeroInput);
    }
    match direction {
        SwapDirection::Buy => pool.buy_meme_swap_amounts(amount_in, min_amount_out),
        SwapDirection::Sell => pool.sell_meme_swap_amounts(amount_in, min_amount_out),
    }
}

/// Enters a quoted swap in the pool's books.
pub fn apply_swap(pool: &mut BoundPool, result: &SwapAmount, direction: SwapDirection)
    requires
        old(pool).can_apply(*result, direction),
    ensures
        *final(pool) == old(pool).applied(*result, direction),
{
    match direction {
        SwapDirection::Buy => {
            pool.admin_fees_quote = pool.admin_fees_quote + result.admin_fee_in;
            pool.admin_fees_meme = pool.admin_fees_meme + result.admin_fee_out;
            pool.quote_reserve.tokens = pool.quote_reserve.tokens + result.amount_in;
            pool.meme_reserve.tokens = pool.meme_reserve.tokens - (result.amount_out
                + result.admin_fee_out);
            if pool.meme_reserve.tokens == 0 {
                pool.locked = true;
            }
        },
        SwapDirection::Sell => {
            pool.admin_fees_meme = pool.admin_fees_meme + result.admin_fee_in;
            pool.admin_fees_quote = pool.admin_fees_quote + result.admin_fee_out;
            pool.meme_reserve.tokens = pool.meme_reserve.tokens + result.amount_in;
            pool.quote_reserve.tokens = pool.quote_reserve.tokens - (result.amount_out
                + result.admin_fee_out);
        },
    }
}

} // verus!
