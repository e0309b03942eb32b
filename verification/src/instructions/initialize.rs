//! Initialization: the faucet gets its configuration and its vaults, once.

use vstd::prelude::*;
use crate::errors::FaucetError;
use crate::faucet::{Custody, Faucet, FaucetView};
use crate::identity::Identity;
use crate::state::FaucetState;
use crate::vault::{Vault, VaultRegistry};

verus! {

/// What the caller names when initializing the faucet.
#[derive(Clone, Copy, Debug, PartialEq, Eq)]
pub struct Initialize {
    /// The identity that becomes the administrator.
    pub admin: Identity,
    /// The mint of the token to pay out.
    pub usdc_mint: Identity,
    /// The derived address of the token vault.
    pub usdc_vault: Identity,
    /// The bump that derives the configuration's address.
    pub bump: u8,
    /// The bump that derives the native vault's address.
    pub sol_vault_bump: u8,
}

impl Initialize {
    /// The configuration that this request writes.
    pub open spec fn config(self) -> FaucetState {
        FaucetState {
            admin: self.admin,
            usdc_mint: self.usdc_mint,
            usdc_vault: self.usdc_vault,
            bump: self.bump,
            sol_vault_bump: self.sol_vault_bump,
        }
    }

    /// The configuration that this request writes.
    pub fn to_config(&self) -> (config: FaucetState)
        ensures
            config == self.config(),
    {
        FaucetState {
            admin: self.admin,
            usdc_mint: self.usdc_mint,
            usdc_vault: self.usdc_vault,
            bump: self.bump,
            sol_vault_bump: self.sol_vault_bump,
        }
    }

    /// The empty vaults that this request opens: the native vault signs for
    /// itself, the configuration signs for the token vault.
    pub open spec fn vaults(self) -> VaultRegistry {
        VaultRegistry {
            sol: Vault { balance: 0, authority_bump: self.sol_vault_bump },
            usdc: Vault { balance: 0, authority_bump: self.bump },
        }
    }
}

/// What `initialize` answers: it succeeds on a faucet without configuration
/// and on no other.
pub open spec fn initialize_outcome(pre: FaucetView) -> Result<(), FaucetError> {
    if pre.custody is Some {
        Err(FaucetError::AlreadyInitialized)
    } else {
        Ok(())
    }
}

/// The faucet after `initialize`: a faucet without configuration gets the
/// configuration and two empty vaults; an initialized one stays as it is.
pub open spec fn initialize_faucet(pre: FaucetView, ctx: Initialize) -> FaucetView {
    if pre.custody is Some {
        pre
    } else {
        FaucetView {
            custody: Some(Custody { config: ctx.config(), vaults: ctx.vaults() }),
            claims: pre.claims,
        }
    }
}

/// Writes the configuration and opens both vaults, empty. Fails with
/// `AlreadyInitialized`, and changes nothing, if the faucet has a
/// configuration already.
pub fn initialize(faucet: &mut Faucet, ctx: &Initialize) -> (outcome: Result<(), FaucetError>)
    ensures
        outcome == initialize_outcome(old(faucet)@),
        final(faucet)@ == initialize_faucet(old(faucet)@, *ctx),
{
    proof {
        use_type_invariant(&*faucet);
    }
    if faucet.custody.is_some() {
        return Err(FaucetError::AlreadyInitialized);
    }
    let config = ctx.to_config();
    let vaults = VaultRegistry::new(config.sol_vault_bump, config.bump);
    faucet.custody = Some(Custody { config, vaults });
    Ok(())
}

} // verus!
