//! Deposits of the token by the administrator.

use vstd::prelude::*;
use crate::accounts::{TokenAccount, Wallet};
use crate::errors::FaucetError;
use crate::faucet::{Custody, Faucet, FaucetView};
use crate::state::is_administrator;
use crate::vault::Asset;

verus! {

/// What the caller brings to a deposit of the token.
#[derive(Clone, Copy, Debug, PartialEq, Eq)]
pub struct DepositUsdc {
    /// The caller, who signs the deposit.
    pub admin: Wallet,
    /// The token account that pays the deposit.
    pub admin_usdc_account: TokenAccount,
}

/// What `deposit_usdc` answers. The caller's authority is tested first, then
/// that the paying account is the caller's and holds the faucet's token,
/// then its balance, then the room in the vault.
pub open spec fn deposit_usdc_outcome(pre: FaucetView, ctx: DepositUsdc, amount: u64) -> Result<
    (),
    FaucetError,
> {
    if !is_administrator(pre.config(), ctx.admin.key) {
        Err(FaucetError::Unauthorized)
    } else if !ctx.admin_usdc_account.belongs_to(ctx.admin.key, pre.config()->0.usdc_mint) {
        Err(FaucetError::AccountMismatch)
    } else if ctx.admin_usdc_account.amount < amount {
        Err(FaucetError::InsufficientCallerBalance)
    } else if pre.balance(Asset::Usdc) + amount > u64::MAX {
        Err(FaucetError::BalanceOverflow)
    } else {
        Ok(())
    }
}

/// The faucet after `deposit_usdc`: on success the token vault holds
/// `amount` more, and nothing else differs.
pub open spec fn deposit_usdc_faucet(pre: FaucetView, ctx: DepositUsdc, amount: u64) -> FaucetView {
    if deposit_usdc_outcome(pre, ctx, amount) is Ok {
        let custody = pre.custody->0;
        FaucetView {
            custody: Some(
                Custody {
                    vaults: custody.vaults.with_balance(
                        Asset::Usdc,
                        (pre.balance(Asset::Usdc) + amount) as u64,
                    ),
                    ..custody
                },
            ),
            ..pre
        }
    } else {
        pre
    }
}

/// The caller's accounts after `deposit_usdc`: on success the paying account
/// holds `amount` less.
pub open spec fn deposit_usdc_accounts(pre: FaucetView, ctx: DepositUsdc, amount: u64) -> DepositUsdc {
    if deposit_usdc_outcome(pre, ctx, amount) is Ok {
        DepositUsdc {
            admin_usdc_account: TokenAccount {
                amount: (ctx.admin_usdc_account.amount - amount) as u64,
                ..ctx.admin_usdc_account
            },
            ..ctx
        }
    } else {
        ctx
    }
}

/// Moves `amount` of the token from the administrator's token account into
/// the token vault. Any other caller is turned down with `Unauthorized`. On
/// an error nothing changes.
pub fn deposit_usdc(faucet: &mut Faucet, ctx: &mut DepositUsdc, amount: u64) -> (outcome: Result<
    (),
    FaucetError,
>)
    ensures
        outcome == deposit_usdc_outcome(old(faucet)@, *old(ctx), amount),
        final(faucet)@ == deposit_usdc_faucet(old(faucet)@, *old(ctx), amount),
        *final(ctx) == deposit_usdc_accounts(old(faucet)@, *old(ctx), amount),
{
    proof {
        use_type_invariant(&*faucet);
    }
    let mut custody = match faucet.custody {
        Some(custody) => custody,
        None => {
            // Without a configuration nobody is the administrator.
            return Err(FaucetError::Unauthorized);
        },
    };
    match custody.config.authorize_deposit(&ctx.admin.key) {
        Ok(()) => {},
        Err(error) => {
            return Err(error);
        },
    }
    if !ctx.admin_usdc_account.is_for(&ctx.admin.key, &custody.config.usdc_mint) {
        return Err(FaucetError::AccountMismatch);
    }
    let mut held: u64 = ctx.admin_usdc_account.amount;
    match custody.vaults.deposit(Asset::Usdc, &mut held, amount) {
        Ok(()) => {
            ctx.admin_usdc_account.amount = held;
            faucet.custody = Some(custody);
            Ok(())
        },
        Err(error) => Err(error),
    }
}

} // verus!
