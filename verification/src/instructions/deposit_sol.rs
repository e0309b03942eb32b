//! Deposits of native coin by the administrator.

use vstd::prelude::*;
use crate::accounts::Wallet;
use crate::errors::FaucetError;
use crate::faucet::{Custody, Faucet, FaucetView};
use crate::state::is_administrator;
use crate::vault::Asset;

verus! {

/// What the caller brings to a deposit of native coin.
#[derive(Clone, Copy, Debug, PartialEq, Eq)]
pub struct DepositSol {
    /// The caller's account, which pays the deposit.
    pub admin: Wallet,
}

/// What `deposit_sol` answers. The caller's authority is tested first, then
/// the caller's balance, then the room in the vault.
pub open spec fn deposit_sol_outcome(pre: FaucetView, ctx: DepositSol, amount: u64) -> Result<
    (),
    FaucetError,
> {
    if !is_administrator(pre.config(), ctx.admin.key) {
        Err(FaucetError::Unauthorized)
    } else if ctx.admin.lamports < amount {
        Err(FaucetError::InsufficientCallerBalance)
    } else if pre.balance(Asset::Sol) + amount > u64::MAX {
        Err(FaucetError::BalanceOverflow)
    } else {
        Ok(())
    }
}

/// The faucet after `deposit_sol`: on success the native vault holds
/// `amount` more, and nothing else differs.
pub open spec fn deposit_sol_faucet(pre: FaucetView, ctx: DepositSol, amount: u64) -> FaucetView {
    if deposit_sol_outcome(pre, ctx, amount) is Ok {
        let custody = pre.custody->0;
        FaucetView {
            custody: Some(
                Custody {
                    vaults: custody.vaults.with_balance(
                        Asset::Sol,
                        (pre.balance(Asset::Sol) + amount) as u64,
                    ),
                    ..custody
                },
            ),
            ..pre
        }
    } else {
        pre
    }
}

/// The caller's account after `deposit_sol`: on success it holds `amount`
/// less.
pub open spec fn deposit_sol_accounts(pre: FaucetView, ctx: DepositSol, amount: u64) -> DepositSol {
    if deposit_sol_outcome(pre, ctx, amount) is Ok {
        DepositSol { admin: Wallet { lamports: (ctx.admin.lamports - amount) as u64, ..ctx.admin } }
    } else {
        ctx
    }
}

/// Moves `amount` of native coin from the administrator's account into the
/// native vault. Any other caller is turned down with `Unauthorized`. On an
/// error nothing changes.
pub fn deposit_sol(faucet: &mut Faucet, ctx: &mut DepositSol, amount: u64) -> (outcome: Result<
    (),
    FaucetError,
>)
    ensures
        outcome == deposit_sol_outcome(old(faucet)@, *old(ctx), amount),
        final(faucet)@ == deposit_sol_faucet(old(faucet)@, *old(ctx), amount),
        *final(ctx) == deposit_sol_accounts(old(faucet)@, *old(ctx), amount),
{
    proof {
        use_type_invariant(&*faucet);
    }
    let mut custody = match faucet.custody {
        Some(custody) => custody,
        None => {
            // Without a configuration nobody is the administrator.
            return Err(FaucetError::Unauthorized);
        },
    };
    match custody.config.authorize_deposit(&ctx.admin.key) {
        Ok(()) => {},
        Err(error) => {
            return Err(error);
        },
    }
    let mut lamports: u64 = ctx.admin.lamports;
    match custody.vaults.deposit(Asset::Sol, &mut lamports, amount) {
        Ok(()) => {
            ctx.admin.lamports = lamports;
            faucet.custody = Some(custody);
            Ok(())
        },
        Err(error) => Err(error),
    }
}

} // verus!
