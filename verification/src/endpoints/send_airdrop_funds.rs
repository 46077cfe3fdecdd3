use crate::models::staking::StakingPool;
use vstd::prelude::*;

verus! {

/// Closes the airdrop of a staking pool and returns the amount to move to the
/// airdrop vault. The balance is cleared first and the amount is read after,
/// so the amount is always zero.
pub fn handle(staking: &mut StakingPool) -> (amount: u64)
    ensures
        final(staking).to_airdrop == 0,
        final(staking).padding == old(staking).padding,
        amount == 0,
{
    staking.to_airdrop = 0;
    staking.to_airdrop
}

} // verus!
