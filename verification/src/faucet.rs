//! The faucet: its configuration, its two vaults and its claim ledger.

use vstd::prelude::*;
use crate::identity::Identity;
use crate::ledger::{record_of, ClaimLedger};
use crate::state::{FaucetState, UserClaim};
use crate::vault::{Asset, VaultRegistry};

verus! {

/// What initialization creates: the configuration, and the vaults that the
/// faucet holds from then on.
#[derive(Clone, Copy, Debug, PartialEq, Eq)]
pub struct Custody {
    pub config: FaucetState,
    pub vaults: VaultRegistry,
}

impl Custody {
    /// The configuration holds, for each vault, the proof that the vault
    /// accepts.
    pub open spec fn consistent(self) -> bool {
        self.vaults.accepts(Asset::Sol, self.config.authority_of(Asset::Sol))
            && self.vaults.accepts(Asset::Usdc, self.config.authority_of(Asset::Usdc))
    }
}

/// The faucet. Before initialization it has no configuration and no vaults,
/// and its balances count as zero.
#[derive(Debug)]
pub struct Faucet {
    pub(crate) custody: Option<Custody>,
    pub(crate) claims: ClaimLedger,
}

/// The faucet as contracts see it.
pub struct FaucetView {
    /// The configuration and the vaults, once initialized.
    pub custody: Option<Custody>,
    /// The claim records by identity.
    pub claims: Map<Identity, UserClaim>,
}

impl FaucetView {
    /// The configuration, once initialized.
    pub open spec fn config(self) -> Option<FaucetState> {
        match self.custody {
            Some(custody) => Some(custody.config),
            None => None,
        }
    }

    /// What the vault of `asset` holds; zero before initialization.
    pub open spec fn balance(self, asset: Asset) -> u64 {
        match self.custody {
            Some(custody) => custody.vaults.vault(asset).balance,
            None => 0,
        }
    }

    /// The claim record of `identity`; unclaimed where none is stored.
    pub open spec fn record(self, identity: Identity) -> UserClaim {
        record_of(self.claims, identity)
    }

    /// The invariant of the faucet's state.
    pub open spec fn wf(self) -> bool {
        match self.custody {
            Some(custody) => custody.consistent(),
            None => true,
        }
    }
}

impl View for Faucet {
    type V = FaucetView;

    open(crate) spec fn view(&self) -> FaucetView {
        FaucetView { custody: self.custody, claims: self.claims@ }
    }
}

impl Faucet {
    /// The faucet's invariant: its configuration signs for its vaults.
    #[verifier::type_invariant]
    pub(crate) open spec fn wf(&self) -> bool {
        self@.wf()
    }

    /// A faucet that has not been initialized.
    pub fn new() -> (faucet: Faucet)
        ensures
            faucet@ == (FaucetView { custody: None, claims: Map::empty() }),
    {
        Faucet { custody: None, claims: ClaimLedger::new() }
    }

    /// The configuration, once initialized.
    pub fn config(&self) -> (config: Option<FaucetState>)
        ensures
            config == self@.config(),
    {
        match self.custody {
            Some(custody) => Some(custody.config),
            None => None,
        }
    }

    /// What the vault of `asset` holds; zero before initialization.
    pub fn balance(&self, asset: Asset) -> (amount: u64)
        ensures
            amount == self@.balance(asset),
    {
        match self.custody {
            Some(custody) => custody.vaults.balance(asset),
            None => 0,
        }
    }

    /// Marks `identity` as paid; nothing else changes.
    pub(crate) fn mark_claimed(&mut self, identity: Identity)
        ensures
            final(self)@ == (FaucetView {
                claims: old(self)@.claims.insert(identity, UserClaim::claimed()),
                ..old(self)@
            }),
    {
        proof {
            use_type_invariant(&*self);
        }
        // The ledger is taken out while it changes.
        let mut claims = ClaimLedger::new();
        std::mem::swap(&mut claims, &mut self.claims);
        claims.mark_claimed(identity);
        self.claims = claims;
    }

    /// Whether the faucet has been initialized.
    pub fn is_initialized(&self) -> (initialized: bool)
        ensures
            initialized == (self@.custody is Some),
    {
        self.custody.is_some()
    }

    /// The number of stored claim records.
    pub fn claim_count(&self) -> (count: usize)
        ensures
            self@.claims.dom().finite(),
            count == self@.claims.dom().len(),
    {
        self.claims.len()
    }

    /// The claim record of `identity`; unclaimed where none is stored.
    pub fn claim_record(&self, identity: &Identity) -> (record: UserClaim)
        ensures
            record == self@.record(*identity),
    {
        UserClaim { has_claimed: self.claims.has_claimed(identity) }
    }
}

} // verus!
