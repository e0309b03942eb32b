//! The accounts that a caller brings to an operation.

use vstd::prelude::*;
use crate::identity::Identity;

verus! {

/// A caller's native-coin account.
#[derive(Clone, Copy, Debug, PartialEq, Eq)]
pub struct Wallet {
    /// The identity that owns the account and signs the operation.
    pub key: Identity,
    /// The native coin it holds.
    pub lamports: u64,
}

/// A token account.
#[derive(Clone, Copy, Debug, PartialEq, Eq)]
pub struct TokenAccount {
    /// The identity that may spend from the account.
    pub owner: Identity,
    /// The mint whose token the account holds.
    pub mint: Identity,
    /// The token units it holds.
    pub amount: u64,
}

impl TokenAccount {
    /// Whether the account holds the token of `mint` on behalf of `owner`.
    pub open spec fn belongs_to(self, owner: Identity, mint: Identity) -> bool {
        self.owner == owner && self.mint == mint
    }

    /// Whether this account holds the token of `mint` on behalf of `owner`.
    pub fn is_for(&self, owner: &Identity, mint: &Identity) -> (matches: bool)
        ensures
            matches == self.belongs_to(*owner, *mint),
    {
        self.owner == *owner && self.mint == *mint
    }
}

} // verus!
