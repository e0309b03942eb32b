//! The records that the faucet keeps: its configuration and one claim record
//! per identity.

use vstd::prelude::*;
use crate::errors::FaucetError;
use crate::identity::Identity;
use crate::vault::{Asset, AuthorityProof};

verus! {

/// The faucet's configuration, written once when the faucet is initialized.
#[derive(Clone, Copy, Debug, PartialEq, Eq)]
pub struct FaucetState {
    /// The only identity that may deposit.
    pub admin: Identity,
    /// The mint of the token that the faucet pays out.
    pub usdc_mint: Identity,
    /// The address of the token vault.
    pub usdc_vault: Identity,
    /// The bump that derives the configuration's own address, which is the
    /// signing authority of the token vault.
    pub bump: u8,
    /// The bump that derives the native vault's address, which signs for
    /// itself.
    pub sol_vault_bump: u8,
}

/// Whether an identity has been paid. A record starts unclaimed and is
/// marked at most once; it is never reset.
#[derive(Clone, Copy, Debug, PartialEq, Eq, Structural)]
pub struct UserClaim {
    pub has_claimed: bool,
}

impl Default for UserClaim {
    fn default() -> (record: UserClaim)
        ensures
            record == UserClaim::unclaimed(),
    {
        UserClaim { has_claimed: false }
    }
}

impl UserClaim {
    /// The record of an identity that has not been paid.
    pub open spec fn unclaimed() -> UserClaim {
        UserClaim { has_claimed: false }
    }

    /// The record of an identity that has been paid.
    pub open spec fn claimed() -> UserClaim {
        UserClaim { has_claimed: true }
    }
}

/// Whether `caller` is the administrator that `config` names. Without a
/// configuration there is no administrator.
pub open spec fn is_administrator(config: Option<FaucetState>, caller: Identity) -> bool {
    match config {
        Some(state) => state.admin == caller,
        None => false,
    }
}

impl FaucetState {
    /// The proof with which this configuration signs for the vault of
    /// `asset`.
    pub open spec fn authority_of(self, asset: Asset) -> AuthorityProof {
        match asset {
            Asset::Sol => AuthorityProof { vault: asset, bump: self.sol_vault_bump },
            Asset::Usdc => AuthorityProof { vault: asset, bump: self.bump },
        }
    }

    /// What a deposit by `caller` is answered before anything is moved:
    /// only the administrator may deposit.
    pub open spec fn deposit_authorized(self, caller: Identity) -> Result<(), FaucetError> {
        if self.admin == caller {
            Ok(())
        } else {
            Err(FaucetError::Unauthorized)
        }
    }

    /// Tests that `caller` may deposit.
    pub fn authorize_deposit(&self, caller: &Identity) -> (outcome: Result<(), FaucetError>)
        ensures
            outcome == self.deposit_authorized(*caller),
    {
        if self.is_admin(caller) {
            Ok(())
        } else {
            Err(FaucetError::Unauthorized)
        }
    }

    /// Whether `caller` is this faucet's administrator.
    pub fn is_admin(&self, caller: &Identity) -> (allowed: bool)
        ensures
            allowed == is_administrator(Some(*self), *caller),
    {
        self.admin == *caller
    }

    /// The proof with which this configuration signs for the vault of
    /// `asset`.
    pub fn authority(&self, asset: Asset) -> (proof: AuthorityProof)
        ensures
            proof == self.authority_of(asset),
    {
        match asset {
            Asset::Sol => AuthorityProof { vault: asset, bump: self.sol_vault_bump },
            Asset::Usdc => AuthorityProof { vault: asset, bump: self.bump },
        }
    }
}

} // verus!
