use vstd::prelude::*;

verus! {

/// What a staking pool still has to hand out.
#[derive(Clone, Copy, Debug, PartialEq, Eq)]
pub struct StakingPool {
    pub to_airdrop: u64,
    pub padding: [u8; 32],
}

} // verus!
