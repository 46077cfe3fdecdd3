use crate::libraries::full_math::{mul_div_floor, mul_div_floor_spec};
use vstd::prelude::*;

verus! {

/// The rate at which purchases earn points in one epoch: `points_per_sol_num`
/// points for every `points_per_sol_denom` units of the quote asset.
#[derive(Clone, Copy, Debug, PartialEq, Eq)]
pub struct PointsEpoch {
    pub epoch_number: u64,
    pub points_per_sol_num: u64,
    pub points_per_sol_denom: u64,
    pub padding: [u8; 8],
}

impl PointsEpoch {
    /// The points that a purchase of `buy_amount` earns, rounded down. `None`
    /// where the rate has no denominator or the points exceed 64 bits.
    pub open spec fn points_for(&self, buy_amount: u64) -> Option<u64> {
        let points = mul_div_floor_spec(
            buy_amount as nat,
            self.points_per_sol_num as nat,
            self.points_per_sol_denom as nat,
        );
        if self.points_per_sol_denom == 0 || points > u64::MAX {
            None
        } else {
            Some(points as u64)
        }
    }

    /// The points that a purchase of `buy_amount` earns.
    pub fn swap_points(&self, buy_amount: u64) -> (r: Option<u64>)
        ensures
            r == self.points_for(buy_amount),
    {
        mul_div_floor(buy_amount, self.points_per_sol_num, self.points_per_sol_denom)
    }
}

} // verus!
