//! A custodial faucet that pays a fixed amount of a native coin and of a
//! token to each identity once, and that only its administrator can refill.

pub mod accounts;
pub mod constants;
pub mod errors;
pub mod faucet;
pub mod identity;
pub mod instructions;
pub mod laws;
pub mod ledger;
pub mod state;
pub mod vault;

pub use accounts::{TokenAccount, Wallet};
pub use constants::{SOL_CLAIM_AMOUNT, USDC_CLAIM_AMOUNT};
pub use errors::FaucetError;
pub use faucet::{Custody, Faucet, FaucetView};
pub use identity::Identity;
pub use instructions::claim::{check_eligibility, claim, plan_claim, Claim, Disbursement, Payment};
pub use instructions::deposit_sol::{deposit_sol, DepositSol};
pub use instructions::deposit_usdc::{deposit_usdc, DepositUsdc};
pub use instructions::initialize::{initialize, Initialize};
pub use ledger::ClaimLedger;
pub use state::{FaucetState, UserClaim};
pub use vault::{seed_of, Asset, AuthorityProof, Vault, VaultRegistry};
