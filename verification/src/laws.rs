//! What holds of the faucet's operations taken together.
//!
//! Each law is stated over the functions by which the operations' own
//! contracts say what they answer and what they leave behind.

use vstd::prelude::*;
use crate::constants::{SOL_CLAIM_AMOUNT, USDC_CLAIM_AMOUNT};
use crate::errors::FaucetError;
use crate::faucet::FaucetView;
use crate::identity::Identity;
use crate::instructions::claim::{claim_accounts, claim_faucet, claim_outcome, Claim};
use crate::instructions::deposit_sol::{
    deposit_sol_accounts,
    deposit_sol_faucet,
    deposit_sol_outcome,
    DepositSol,
};
use crate::instructions::deposit_usdc::{
    deposit_usdc_accounts,
    deposit_usdc_faucet,
    deposit_usdc_outcome,
    DepositUsdc,
};
use crate::instructions::initialize::{initialize_faucet, initialize_outcome, Initialize};
use crate::state::is_administrator;
use crate::vault::Asset;

verus! {

/// An identity is paid at most once. After a claim that was paid, or that
/// was turned down because the claimant had been paid before, the next claim
/// of the same identity fails with `AlreadyClaimed` and changes neither the
/// faucet nor the accounts it is made with; so the vaults have paid that
/// identity once.
pub proof fn law_claim_at_most_once(pre: FaucetView, first: Claim, second: Claim)
    requires
        claim_outcome(pre, first) is Ok || claim_outcome(pre, first) == Err::<(), FaucetError>(
            FaucetError::AlreadyClaimed,
        ),
        second.user.key == first.user.key,
    ensures
        claim_outcome(claim_faucet(pre, first), second) == Err::<(), FaucetError>(
            FaucetError::AlreadyClaimed,
        ),
        claim_faucet(claim_faucet(pre, first), second) == claim_faucet(pre, first),
        claim_accounts(claim_faucet(pre, first), second) == second,
        claim_outcome(pre, first) is Ok ==> {
            &&& claim_faucet(claim_faucet(pre, first), second).balance(Asset::Sol) == pre.balance(
                Asset::Sol,
            ) - SOL_CLAIM_AMOUNT
            &&& claim_faucet(claim_faucet(pre, first), second).balance(Asset::Usdc) == pre.balance(
                Asset::Usdc,
            ) - USDC_CLAIM_AMOUNT
        },
{
}

/// A claim by an identity that has not been paid, made while the native
/// vault holds less than one claim pays out, fails with
/// `InsufficientSolBalance` and changes no balance and no claim record.
pub proof fn law_claim_needs_funded_vault(pre: FaucetView, ctx: Claim)
    requires
        !pre.record(ctx.user.key).has_claimed,
        pre.balance(Asset::Sol) < SOL_CLAIM_AMOUNT,
    ensures
        claim_outcome(pre, ctx) == Err::<(), FaucetError>(FaucetError::InsufficientSolBalance),
        claim_faucet(pre, ctx) == pre,
        claim_accounts(pre, ctx) == ctx,
{
}

/// A deposit of native coin by anyone but the administrator fails with
/// `Unauthorized` and changes no balance.
pub proof fn law_deposit_sol_is_for_admin(pre: FaucetView, ctx: DepositSol, amount: u64)
    requires
        !is_administrator(pre.config(), ctx.admin.key),
    ensures
        deposit_sol_outcome(pre, ctx, amount) == Err::<(), FaucetError>(FaucetError::Unauthorized),
        deposit_sol_faucet(pre, ctx, amount) == pre,
        deposit_sol_accounts(pre, ctx, amount) == ctx,
{
}

/// A deposit of the token by anyone but the administrator fails with
/// `Unauthorized` and changes no balance.
pub proof fn law_deposit_usdc_is_for_admin(pre: FaucetView, ctx: DepositUsdc, amount: u64)
    requires
        !is_administrator(pre.config(), ctx.admin.key),
    ensures
        deposit_usdc_outcome(pre, ctx, amount) == Err::<(), FaucetError>(
            FaucetError::Unauthorized,
        ),
        deposit_usdc_faucet(pre, ctx, amount) == pre,
        deposit_usdc_accounts(pre, ctx, amount) == ctx,
{
}

/// After one `initialize`, whatever it answered, every further `initialize`
/// fails with `AlreadyInitialized` and leaves the faucet, its configuration
/// included, as it was.
pub proof fn law_initialize_once(pre: FaucetView, first: Initialize, again: Initialize)
    ensures
        initialize_outcome(initialize_faucet(pre, first)) == Err::<(), FaucetError>(
            FaucetError::AlreadyInitialized,
        ),
        initialize_faucet(initialize_faucet(pre, first), again) == initialize_faucet(pre, first),
{
}

/// Once written, the configuration is never changed: no operation, whatever
/// it is called with, alters the configuration of an initialized faucet.
pub proof fn law_config_is_permanent(
    pre: FaucetView,
    init: Initialize,
    sol: DepositSol,
    usdc: DepositUsdc,
    amount: u64,
    ctx: Claim,
)
    requires
        pre.config() is Some,
    ensures
        initialize_faucet(pre, init).config() == pre.config(),
        deposit_sol_faucet(pre, sol, amount).config() == pre.config(),
        deposit_usdc_faucet(pre, usdc, amount).config() == pre.config(),
        claim_faucet(pre, ctx).config() == pre.config(),
{
}

/// A claim record is never reset, and a claim touches no record but the
/// claimant's: after any operation an identity that had been paid still
/// counts as paid, and only a successful claim of its own marks an identity
/// that had not.
pub proof fn law_records_are_monotonic(
    pre: FaucetView,
    init: Initialize,
    sol: DepositSol,
    usdc: DepositUsdc,
    amount: u64,
    ctx: Claim,
    identity: Identity,
)
    ensures
        initialize_faucet(pre, init).record(identity) == pre.record(identity),
        deposit_sol_faucet(pre, sol, amount).record(identity) == pre.record(identity),
        deposit_usdc_faucet(pre, usdc, amount).record(identity) == pre.record(identity),
        claim_faucet(pre, ctx).record(identity).has_claimed == (pre.record(identity).has_claimed
            || (identity == ctx.user.key && claim_outcome(pre, ctx) is Ok)),
{
}

/// Claims of two different identities that are both paid take exactly two
/// fixed amounts out of each vault and mark both records.
pub proof fn law_two_claimants(pre: FaucetView, first: Claim, second: Claim)
    requires
        first.user.key != second.user.key,
        claim_outcome(pre, first) is Ok,
        claim_outcome(claim_faucet(pre, first), second) is Ok,
    ensures
        claim_faucet(claim_faucet(pre, first), second).balance(Asset::Sol) == pre.balance(
            Asset::Sol,
        ) - 2 * SOL_CLAIM_AMOUNT,
        claim_faucet(claim_faucet(pre, first), second).balance(Asset::Usdc) == pre.balance(
            Asset::Usdc,
        ) - 2 * USDC_CLAIM_AMOUNT,
        claim_faucet(claim_faucet(pre, first), second).record(first.user.key).has_claimed,
        claim_faucet(claim_faucet(pre, first), second).record(second.user.key).has_claimed,
{
}

/// An operation that is turned down has no effect: whatever the error, the
/// faucet and the caller's accounts are as they were.
pub proof fn law_errors_change_nothing(
    pre: FaucetView,
    init: Initialize,
    sol: DepositSol,
    usdc: DepositUsdc,
    amount: u64,
    ctx: Claim,
)
    ensures
        initialize_outcome(pre) is Err ==> initialize_faucet(pre, init) == pre,
        deposit_sol_outcome(pre, sol, amount) is Err ==> deposit_sol_faucet(pre, sol, amount)
            == pre && deposit_sol_accounts(pre, sol, amount) == sol,
        deposit_usdc_outcome(pre, usdc, amount) is Err ==> deposit_usdc_faucet(pre, usdc, amount)
            == pre && deposit_usdc_accounts(pre, usdc, amount) == usdc,
        claim_outcome(pre, ctx) is Err ==> claim_faucet(pre, ctx) == pre && claim_accounts(
            pre,
            ctx,
        ) == ctx,
{
}

/// No operation makes or destroys coin: what a vault gains the caller's
/// account loses, and what a vault pays out the claimant's account gains.
pub proof fn law_funds_are_conserved(
    pre: FaucetView,
    sol: DepositSol,
    usdc: DepositUsdc,
    amount: u64,
    ctx: Claim,
)
    ensures
        deposit_sol_faucet(pre, sol, amount).balance(Asset::Sol) + deposit_sol_accounts(
            pre,
            sol,
            amount,
        ).admin.lamports == pre.balance(Asset::Sol) + sol.admin.lamports,
        deposit_sol_faucet(pre, sol, amount).balance(Asset::Usdc) == pre.balance(Asset::Usdc),
        deposit_usdc_faucet(pre, usdc, amount).balance(Asset::Usdc) + deposit_usdc_accounts(
            pre,
            usdc,
            amount,
        ).admin_usdc_account.amount == pre.balance(Asset::Usdc) + usdc.admin_usdc_account.amount,
        deposit_usdc_faucet(pre, usdc, amount).balance(Asset::Sol) == pre.balance(Asset::Sol),
        claim_faucet(pre, ctx).balance(Asset::Sol) + claim_accounts(pre, ctx).user.lamports
            == pre.balance(Asset::Sol) + ctx.user.lamports,
        claim_faucet(pre, ctx).balance(Asset::Usdc) + claim_accounts(
            pre,
            ctx,
        ).user_usdc_account.amount == pre.balance(Asset::Usdc) + ctx.user_usdc_account.amount,
{
}

/// Every operation keeps the faucet's invariant.
pub proof fn law_invariant_is_kept(
    pre: FaucetView,
    init: Initialize,
    sol: DepositSol,
    usdc: DepositUsdc,
    amount: u64,
    ctx: Claim,
)
    requires
        pre.wf(),
    ensures
        initialize_faucet(pre, init).wf(),
        deposit_sol_faucet(pre, sol, amount).wf(),
        deposit_usdc_faucet(pre, usdc, amount).wf(),
        claim_faucet(pre, ctx).wf(),
{
}

} // verus!
