use crate::err::AmmError;
use crate::models::bound::{apply_swap, BoundPool, SwapAmount, SwapDirection};
use crate::models::token::{same_key, TokenBalance};
use vstd::prelude::*;

verus! {

/// What a sale of `coin_in_amount` of the base asset comes to, for a trader
/// who pays from the account `user_meme`.
///
/// The request is refused with `AssetMismatch` for an account of another
/// asset than the pool's base reserve, `NoZeroInput` for nothing offered,
/// `InsufficientBalance` for more than the account holds and `PoolIsLocked`
/// for a pool that no longer trades, in this order. Else it is the pool's
/// quote, or `MathOverflow` where the pool's books cannot take the quote.
pub open spec fn sell_outcome(
    pool: BoundPool,
    user_meme: TokenBalance,
    coin_in_amount: u64,
    coin_y_min_value: u64,
) -> Result<SwapAmount, AmmError> {
    if user_meme.mint@ != pool.meme_reserve.mint@ {
        Err(AmmError::AssetMismatch)
    } else if coin_in_amount == 0 {
        Err(AmmError::NoZeroInput)
    } else if coin_in_amount > user_meme.amount {
        Err(AmmError::InsufficientBalance)
    } else if pool.locked {
        Err(AmmError::PoolIsLocked)
    } else {
        match pool.sell_quote(coin_in_amount, coin_y_min_value) {
            Err(e) => Err(e),
            Ok(swap) => if pool.can_apply(swap, SwapDirection::Sell) {
                Ok(swap)
            } else {
                Err(AmmError::MathOverflow)
            },
        }
    }
}

/// Sells the base asset to the pool: decides the request and, where it is
/// granted, enters the swap in the pool's books. The trader owes the pool the
/// net input with its fee and is owed the net output. A refused request
/// leaves the pool as it was.
pub fn handle(
    pool: &mut BoundPool,
    user_meme: &TokenBalance,
    coin_in_amount: u64,
    coin_y_min_value: u64,
) -> (r: Result<SwapAmount, AmmError>)
    ensures
        r == sell_outcome(*old(pool), *user_meme, coin_in_amount, coin_y_min_value),
        r is Ok ==> *final(pool) == old(pool).applied(r->Ok_0, SwapDirection::Sell),
        r is Err ==> *final(pool) == *old(pool),
        old(pool).wf() ==> final(pool).wf(),
{
    if !same_key(&user_meme.mint, &pool.meme_reserve.mint) {
        return Err(AmmError::AssetMismatch);
    }
    if coin_in_amount == 0 {
        return Err(AmmError::NoZeroInput);
    }
    if coin_in_amount > user_meme.amount {
        return Err(AmmError::InsufficientBalance);
    }
    if pool.locked {
        return Err(AmmError::PoolIsLocked);
    }
    let swap_amount = pool.sell_meme_swap_amounts(coin_in_amount, coin_y_min_value)?;
    if !pool.can_apply_swap(&swap_amount, SwapDirection::Sell) {
        return Err(AmmError::MathOverflow);
    }
    apply_swap(pool, &swap_amount, SwapDirection::Sell);
    Ok(swap_amount)
}

} // verus!
