pub mod utils;
pub mod wide;
