pub mod bound;
pub mod curve;
pub mod fees;
pub mod laws;
pub mod params;
pub mod points_epoch;
pub mod staking;
pub mod target_config;
pub mod token;
