//! The vault registry: the two pools that the faucet holds in custody, and
//! the transfers into and out of them.
//!
//! A vault belongs to no user. Coin leaves it only on the word of its
//! signing authority, an address derived for that purpose; the proof of that
//! authority is the bump that derives the address.

use vstd::prelude::*;
use crate::errors::FaucetError;

verus! {

/// The two kinds of asset that the faucet holds, each in a vault of its own.
#[derive(Clone, Copy, Debug, PartialEq, Eq, Structural)]
pub enum Asset {
    /// The native coin.
    Sol,
    /// The token.
    Usdc,
}

/// The right to sign for one vault: the vault, and the bump that derives
/// the address of its signing authority.
#[derive(Clone, Copy, Debug, PartialEq, Eq, Structural)]
pub struct AuthorityProof {
    pub vault: Asset,
    pub bump: u8,
}

/// One pool, with the bump of the authority that signs for it.
#[derive(Clone, Copy, Debug, PartialEq, Eq, Structural)]
pub struct Vault {
    pub balance: u64,
    pub authority_bump: u8,
}

/// Both vaults of the faucet.
#[derive(Clone, Copy, Debug, PartialEq, Eq, Structural)]
pub struct VaultRegistry {
    pub sol: Vault,
    pub usdc: Vault,
}

/// The label from which the signing authority of a vault is derived. The
/// native vault signs for itself; the token vault is signed for by the
/// faucet's configuration.
pub open spec fn authority_seed(asset: Asset) -> Seq<char> {
    match asset {
        Asset::Sol => "sol_vault"@,
        Asset::Usdc => "faucet_state"@,
    }
}

/// The label from which the signing authority of `asset`'s vault is derived.
pub fn seed_of(asset: Asset) -> (seed: &'static str)
    ensures
        seed@ == authority_seed(asset),
{
    match asset {
        Asset::Sol => "sol_vault",
        Asset::Usdc => "faucet_state",
    }
}

impl VaultRegistry {
    /// The vault that holds `asset`.
    pub open spec fn vault(self, asset: Asset) -> Vault {
        match asset {
            Asset::Sol => self.sol,
            Asset::Usdc => self.usdc,
        }
    }

    /// This registry with the balance of one vault replaced.
    pub open spec fn with_balance(self, asset: Asset, balance: u64) -> VaultRegistry {
        match asset {
            Asset::Sol => VaultRegistry { sol: Vault { balance, ..self.sol }, ..self },
            Asset::Usdc => VaultRegistry { usdc: Vault { balance, ..self.usdc }, ..self },
        }
    }

    /// Whether `proof` is the signing authority of `asset`'s vault.
    pub open spec fn accepts(self, asset: Asset, proof: AuthorityProof) -> bool {
        proof.vault == asset && proof.bump == self.vault(asset).authority_bump
    }

    /// What a deposit of `amount` from an account holding `source` answers.
    pub open spec fn deposit_outcome(self, asset: Asset, source: u64, amount: u64) -> Result<
        (),
        FaucetError,
    > {
        if source < amount {
            Err(FaucetError::InsufficientCallerBalance)
        } else if self.vault(asset).balance + amount > u64::MAX {
            Err(FaucetError::BalanceOverflow)
        } else {
            Ok(())
        }
    }

    /// What a transfer of `amount` out of a vault, to an account holding
    /// `destination`, answers. The authority is tested first, then the
    /// vault's balance, then the room at the destination.
    pub open spec fn transfer_outcome(
        self,
        asset: Asset,
        destination: u64,
        amount: u64,
        proof: AuthorityProof,
    ) -> Result<(), FaucetError> {
        if !self.accepts(asset, proof) {
            Err(FaucetError::Unauthorized)
        } else if self.vault(asset).balance < amount {
            Err(FaucetError::InsufficientVaultBalance)
        } else if destination + amount > u64::MAX {
            Err(FaucetError::BalanceOverflow)
        } else {
            Ok(())
        }
    }

    /// Two empty vaults, each with the bump of its signing authority.
    pub fn new(sol_authority_bump: u8, usdc_authority_bump: u8) -> (vaults: VaultRegistry)
        ensures
            vaults == (VaultRegistry {
                sol: Vault { balance: 0, authority_bump: sol_authority_bump },
                usdc: Vault { balance: 0, authority_bump: usdc_authority_bump },
            }),
    {
        VaultRegistry {
            sol: Vault { balance: 0, authority_bump: sol_authority_bump },
            usdc: Vault { balance: 0, authority_bump: usdc_authority_bump },
        }
    }

    /// What the vault of `asset` holds.
    pub fn balance(&self, asset: Asset) -> (amount: u64)
        ensures
            amount == self.vault(asset).balance,
    {
        match asset {
            Asset::Sol => self.sol.balance,
            Asset::Usdc => self.usdc.balance,
        }
    }

    /// The proof that signs for the vault of `asset`.
    pub fn authority(&self, asset: Asset) -> (proof: AuthorityProof)
        ensures
            proof == (AuthorityProof { vault: asset, bump: self.vault(asset).authority_bump }),
            self.accepts(asset, proof),
    {
        match asset {
            Asset::Sol => AuthorityProof { vault: asset, bump: self.sol.authority_bump },
            Asset::Usdc => AuthorityProof { vault: asset, bump: self.usdc.authority_bump },
        }
    }

    /// Moves `amount` from the account holding `source` into the vault of
    /// `asset`. On an error neither balance changes.
    pub fn deposit(&mut self, asset: Asset, source: &mut u64, amount: u64) -> (outcome: Result<
        (),
        FaucetError,
    >)
        ensures
            outcome == old(self).deposit_outcome(asset, *old(source), amount),
            outcome is Ok ==> *final(source) == *old(source) - amount && *final(self) == old(
                self,
            ).with_balance(asset, (old(self).vault(asset).balance + amount) as u64),
            outcome is Err ==> *final(source) == *old(source) && *final(self) == *old(self),
    {
        if *source < amount {
            return Err(FaucetError::InsufficientCallerBalance);
        }
        let held: u64 = self.balance(asset);
        if amount > u64::MAX - held {
            return Err(FaucetError::BalanceOverflow);
        }
        *source = *source - amount;
        self.set_balance(asset, held + amount);
        Ok(())
    }

    /// Moves `amount` out of the vault of `asset` to the account holding
    /// `destination`, if `proof` is the vault's signing authority. On an
    /// error neither balance changes.
    pub fn transfer(
        &mut self,
        asset: Asset,
        destination: &mut u64,
        amount: u64,
        proof: AuthorityProof,
    ) -> (outcome: Result<(), FaucetError>)
        ensures
            outcome == old(self).transfer_outcome(asset, *old(destination), amount, proof),
            outcome is Ok ==> *final(destination) == *old(destination) + amount && *final(self)
                == old(self).with_balance(asset, (old(self).vault(asset).balance - amount) as u64),
            outcome is Err ==> *final(destination) == *old(destination) && *final(self) == *old(
                self,
            ),
    {
        let authority: AuthorityProof = self.authority(asset);
        if !(proof.vault == asset && proof.bump == authority.bump) {
            return Err(FaucetError::Unauthorized);
        }
        let held: u64 = self.balance(asset);
        if held < amount {
            return Err(FaucetError::InsufficientVaultBalance);
        }
        if amount > u64::MAX - *destination {
            return Err(FaucetError::BalanceOverflow);
        }
        *destination = *destination + amount;
        self.set_balance(asset, held - amount);
        Ok(())
    }

    fn set_balance(&mut self, asset: Asset, balance: u64)
        ensures
            *final(self) == old(self).with_balance(asset, balance),
    {
        match asset {
            Asset::Sol => {
                self.sol.balance = balance;
            },
            Asset::Usdc => {
                self.usdc.balance = balance;
            },
        }
    }
}

} // verus!
