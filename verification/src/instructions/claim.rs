//! Claims: each identity is paid the fixed amounts once.

use vstd::prelude::*;
use crate::accounts::{TokenAccount, Wallet};
use crate::constants::{SOL_CLAIM_AMOUNT, USDC_CLAIM_AMOUNT};
use crate::errors::FaucetError;
use crate::faucet::{Custody, Faucet, FaucetView};
use crate::state::{FaucetState, UserClaim};
use crate::vault::{Asset, AuthorityProof};

verus! {

/// What the claimant brings to a claim.
#[derive(Clone, Copy, Debug, PartialEq, Eq)]
pub struct Claim {
    /// The claimant's account, which receives the native coin.
    pub user: Wallet,
    /// The claimant's token account, which receives the token.
    pub user_usdc_account: TokenAccount,
}

/// One transfer out of a vault: how much, and the proof that signs for it.
#[derive(Clone, Copy, Debug, PartialEq, Eq, Structural)]
pub struct Payment {
    pub asset: Asset,
    pub amount: u64,
    pub authority: AuthorityProof,
}

/// The two transfers that pay one claim, in the order in which they are
/// made: first the native coin, then the token.
#[derive(Clone, Copy, Debug, PartialEq, Eq, Structural)]
pub struct Disbursement {
    pub sol: Payment,
    pub usdc: Payment,
}

/// Whether a claim may be paid at all: the claimant must not have been paid
/// before, and the native vault must hold what one claim pays out. The
/// record is tested first.
pub open spec fn eligibility(record: UserClaim, sol_vault_balance: u64) -> Result<
    (),
    FaucetError,
> {
    if record.has_claimed {
        Err(FaucetError::AlreadyClaimed)
    } else if sol_vault_balance < SOL_CLAIM_AMOUNT {
        Err(FaucetError::InsufficientSolBalance)
    } else {
        Ok(())
    }
}

/// Tests whether a claim may be paid, from the claimant's record and the
/// balance of the native vault.
pub fn check_eligibility(record: &UserClaim, sol_vault_balance: u64) -> (outcome: Result<
    (),
    FaucetError,
>)
    ensures
        outcome == eligibility(*record, sol_vault_balance),
{
    if record.has_claimed {
        Err(FaucetError::AlreadyClaimed)
    } else if sol_vault_balance < SOL_CLAIM_AMOUNT {
        Err(FaucetError::InsufficientSolBalance)
    } else {
        Ok(())
    }
}

/// The transfers that pay one claim under `config`: the fixed amount out of
/// each vault, each signed with the proof that `config` holds for that
/// vault.
pub open spec fn disbursement(config: FaucetState) -> Disbursement {
    Disbursement {
        sol: Payment {
            asset: Asset::Sol,
            amount: SOL_CLAIM_AMOUNT,
            authority: config.authority_of(Asset::Sol),
        },
        usdc: Payment {
            asset: Asset::Usdc,
            amount: USDC_CLAIM_AMOUNT,
            authority: config.authority_of(Asset::Usdc),
        },
    }
}

/// What `plan_claim` answers: the transfers to make where the claim may be
/// paid, else the reason why it may not.
pub open spec fn claim_plan(config: FaucetState, record: UserClaim, sol_vault_balance: u64) -> Result<
    Disbursement,
    FaucetError,
> {
    match eligibility(record, sol_vault_balance) {
        Ok(_) => Ok(disbursement(config)),
        Err(error) => Err(error),
    }
}

/// Decides a claim from the configuration, the claimant's record and the
/// balance of the native vault: the transfers to make, or the reason why
/// the claim is turned down. Nothing is moved here. The record is to be
/// marked once both transfers have been made, and only then.
pub fn plan_claim(config: &FaucetState, record: &UserClaim, sol_vault_balance: u64) -> (plan: Result<
    Disbursement,
    FaucetError,
>)
    ensures
        plan == claim_plan(*config, *record, sol_vault_balance),
{
    match check_eligibility(record, sol_vault_balance) {
        Ok(()) => Ok(
            Disbursement {
                sol: Payment {
                    asset: Asset::Sol,
                    amount: SOL_CLAIM_AMOUNT,
                    authority: config.authority(Asset::Sol),
                },
                usdc: Payment {
                    asset: Asset::Usdc,
                    amount: USDC_CLAIM_AMOUNT,
                    authority: config.authority(Asset::Usdc),
                },
            },
        ),
        Err(error) => Err(error),
    }
}

/// What `claim` answers. Eligibility is tested before any transfer; then the
/// native coin is moved, then the token. The token vault's balance is not
/// tested ahead of its transfer: a token vault that cannot pay fails the
/// claim at that transfer.
pub open spec fn claim_outcome(pre: FaucetView, ctx: Claim) -> Result<(), FaucetError> {
    match eligibility(pre.record(ctx.user.key), pre.balance(Asset::Sol)) {
        Err(error) => Err(error),
        Ok(_) => if ctx.user.lamports + SOL_CLAIM_AMOUNT > u64::MAX {
            Err(FaucetError::BalanceOverflow)
        } else if !ctx.user_usdc_account.belongs_to(ctx.user.key, pre.config()->0.usdc_mint) {
            Err(FaucetError::AccountMismatch)
        } else if pre.balance(Asset::Usdc) < USDC_CLAIM_AMOUNT {
            Err(FaucetError::InsufficientVaultBalance)
        } else if ctx.user_usdc_account.amount + USDC_CLAIM_AMOUNT > u64::MAX {
            Err(FaucetError::BalanceOverflow)
        } else {
            Ok(())
        },
    }
}

/// The faucet after `claim`: on success each vault holds its fixed amount
/// less and the claimant's record is marked; otherwise nothing differs.
pub open spec fn claim_faucet(pre: FaucetView, ctx: Claim) -> FaucetView {
    if claim_outcome(pre, ctx) is Ok {
        let custody = pre.custody->0;
        FaucetView {
            custody: Some(
                Custody {
                    vaults: custody.vaults.with_balance(
                        Asset::Sol,
                        (pre.balance(Asset::Sol) - SOL_CLAIM_AMOUNT) as u64,
                    ).with_balance(Asset::Usdc, (pre.balance(Asset::Usdc) - USDC_CLAIM_AMOUNT) as u64),
                    ..custody
                },
            ),
            claims: pre.claims.insert(ctx.user.key, UserClaim::claimed()),
        }
    } else {
        pre
    }
}

/// The claimant's accounts after `claim`: on success each holds its fixed
/// amount more; otherwise nothing differs.
pub open spec fn claim_accounts(pre: FaucetView, ctx: Claim) -> Claim {
    if claim_outcome(pre, ctx) is Ok {
        Claim {
            user: Wallet { lamports: (ctx.user.lamports + SOL_CLAIM_AMOUNT) as u64, ..ctx.user },
            user_usdc_account: TokenAccount {
                amount: (ctx.user_usdc_account.amount + USDC_CLAIM_AMOUNT) as u64,
                ..ctx.user_usdc_account
            },
        }
    } else {
        ctx
    }
}

/// Pays the claimant the fixed amounts of native coin and of token out of
/// the vaults, each transfer signed by the vault's own authority, and marks
/// the claimant's record. Both transfers are made or neither: on an error
/// nothing changes.
pub fn claim(faucet: &mut Faucet, ctx: &mut Claim) -> (outcome: Result<(), FaucetError>)
    ensures
        outcome == claim_outcome(old(faucet)@, *old(ctx)),
        final(faucet)@ == claim_faucet(old(faucet)@, *old(ctx)),
        *final(ctx) == claim_accounts(old(faucet)@, *old(ctx)),
{
    proof {
        use_type_invariant(&*faucet);
    }
    let record = faucet.claim_record(&ctx.user.key);
    let (config, mut vaults) = match faucet.custody {
        Some(custody) => (custody.config, custody.vaults),
        None => {
            // Without vaults there is nothing to pay from.
            return check_eligibility(&record, 0);
        },
    };
    let plan = match plan_claim(&config, &record, vaults.balance(Asset::Sol)) {
        Ok(plan) => plan,
        Err(error) => {
            return Err(error);
        },
    };
    let mut lamports: u64 = ctx.user.lamports;
    match vaults.transfer(plan.sol.asset, &mut lamports, plan.sol.amount, plan.sol.authority) {
        Ok(()) => {},
        Err(error) => {
            return Err(error);
        },
    }
    if !ctx.user_usdc_account.is_for(&ctx.user.key, &config.usdc_mint) {
        return Err(FaucetError::AccountMismatch);
    }
    let mut tokens: u64 = ctx.user_usdc_account.amount;
    match vaults.transfer(plan.usdc.asset, &mut tokens, plan.usdc.amount, plan.usdc.authority) {
        Ok(()) => {},
        Err(error) => {
            return Err(error);
        },
    }
    ctx.user.lamports = lamports;
    ctx.user_usdc_account.amount = tokens;
    faucet.custody = Some(Custody { config, vaults });
    faucet.mark_claimed(ctx.user.key);
    Ok(())
}

} // verus!
