use crate::err::AmmError;
use crate::models::bound::{apply_swap, BoundPool, SwapAmount, SwapDirection};
use crate::models::points_epoch::PointsEpoch;
use crate::models::token::{same_key, TokenBalance};
use vstd::prelude::*;

verus! {

/// What a purchase moves: the swap, and the points owed to the referrer.
#[derive(Clone, Copy, Debug, PartialEq, Eq, Structural)]
pub struct Purchase {
    pub swap: SwapAmount,
    pub referrer_points: u64,
}

/// The points paid out for a purchase that earns `points` while
/// `available` are left to give: all that are earned and left go to the
/// referrer, and without a referrer none are paid.
pub open spec fn referral_payout(available: u64, points: u64, has_referrer: bool) -> u64 {
    if !has_referrer {
        0
    } else if available <= points {
        available
    } else {
        points
    }
}

/// What a purchase with `coin_in_amount` of the quote asset comes to, for a
/// trader who is paid into the account `user_meme`.
///
/// The request is refused with `AssetMismatch` for an account of another
/// asset than the pool's base reserve, `NoZeroInput` for nothing offered and
/// `PoolIsLocked` for a pool that no longer trades, in this order. Else it is
/// the pool's quote with the referrer's points, which are earned on the net
/// input with its fee; or `MathOverflow` where the points cannot be computed
/// or the pool's books cannot take the quote.
pub open spec fn buy_outcome(
    pool: BoundPool,
    user_meme: TokenBalance,
    coin_in_amount: u64,
    coin_x_min_value: u64,
    available_points: u64,
    points_epoch: PointsEpoch,
    has_referrer: bool,
) -> Result<Purchase, AmmError> {
    if user_meme.mint@ != pool.meme_reserve.mint@ {
        Err(AmmError::AssetMismatch)
    } else if coin_in_amount == 0 {
        Err(AmmError::NoZeroInput)
    } else if pool.locked {
        Err(AmmError::PoolIsLocked)
    } else {
        match pool.buy_quote(coin_in_amount, coin_x_min_value) {
            Err(e) => Err(e),
            Ok(swap) => match points_epoch.points_for((swap.amount_in + swap.admin_fee_in) as u64) {
                None => Err(AmmError::MathOverflow),
                Some(points) => if pool.can_apply(swap, SwapDirection::Buy) {
                    Ok(
                        Purchase {
                            swap,
                            referrer_points: referral_payout(
                                available_points,
                                points,
                                has_referrer,
                            ),
                        },
                    )
                } else {
                    Err(AmmError::MathOverflow)
                },
            },
        }
    }
}

/// The points that a purchase of `buy_amount` earns in the given epoch.
pub fn get_swap_points(buy_amount: u64, points_epoch: &PointsEpoch) -> (points: u64)
    requires
        points_epoch.points_for(buy_amount) is Some,
    ensures
        points_epoch.points_for(buy_amount) == Some(points),
{
    match points_epoch.swap_points(buy_amount) {
        Some(points) => points,
        None => vstd::pervasive::unreached(),
    }
}

/// Decides how many of the earned points are paid out, and to whom.
pub fn clamp_referrer_points(available: u64, points: u64, has_referrer: bool) -> (r: u64)
    ensures
        r == referral_payout(available, points, has_referrer),
{
    let clamped_points: u64 = if available <= points {
        available
    } else {
        points
    };
    if clamped_points > 0 && has_referrer {
        clamped_points
    } else {
        0
    }
}

/// Buys the base asset from the pool: decides the request and, where it is
/// granted, enters the swap in the pool's books. The trader owes the pool the
/// net input with its fee and is owed the net output; the referrer is owed the
/// points. A purchase that takes the last of the base reserve locks the pool.
/// A refused request leaves the pool as it was.
pub fn handle(
    pool: &mut BoundPool,
    user_meme: &TokenBalance,
    coin_in_amount: u64,
    coin_x_min_value: u64,
    available_points: u64,
    points_epoch: &PointsEpoch,
    has_referrer: bool,
) -> (r: Result<Purchase, AmmError>)
    ensures
        r == buy_outcome(
            *old(pool),
            *user_meme,
            coin_in_amount,
            coin_x_min_value,
            available_points,
            *points_epoch,
            has_referrer,
        ),
        r is Ok ==> *final(pool) == old(pool).applied(r->Ok_0.swap, SwapDirection::Buy),
        r is Err ==> *final(pool) == *old(pool),
        old(pool).wf() ==> final(pool).wf(),
{
    if !same_key(&user_meme.mint, &pool.meme_reserve.mint) {
        return Err(AmmError::AssetMismatch);
    }
    if coin_in_amount == 0 {
        return Err(AmmError::NoZeroInput);
    }
    if pool.locked {
        return Err(AmmError::PoolIsLocked);
    }
    let swap_amount = pool.buy_meme_swap_amounts(coin_in_amount, coin_x_min_value)?;
    let points: u64 = match points_epoch.swap_points(
        swap_amount.amount_in + swap_amount.admin_fee_in,
    ) {
        Some(points) => points,
        None => {
            return Err(AmmError::MathOverflow);
        },
    };
    if !pool.can_apply_swap(&swap_amount, SwapDirection::Buy) {
        return Err(AmmError::MathOverflow);
    }
    let referrer_points: u64 = clamp_referrer_points(available_points, points, has_referrer);
    apply_swap(pool, &swap_amount, SwapDirection::Buy);
    Ok(Purchase { swap: swap_amount, referrer_points })
}

} // verus!
