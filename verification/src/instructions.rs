//! The four operations of the faucet.

pub mod claim;
pub mod deposit_sol;
pub mod deposit_usdc;
pub mod initialize;
