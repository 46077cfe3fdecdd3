use vstd::prelude::*;

verus! {

/// The amount of one asset that a pool of it aims to collect.
#[derive(Clone, Copy, Debug, PartialEq, Eq)]
pub struct TargetConfig {
    pub token_target_amount: u64,
    pub token_mint: [u8; 32],
}

} // verus!
