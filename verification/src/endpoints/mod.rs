pub mod send_airdrop_funds;
pub mod swap_x;
pub mod swap_y;
