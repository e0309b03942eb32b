//! The reasons for which the faucet turns an operation down.

use vstd::prelude::*;

verus! {

/// Why an operation was rejected. A rejected operation changes nothing that
/// the faucet or the caller holds.
#[derive(Clone, Copy, Debug, PartialEq, Eq, Structural)]
pub enum FaucetError {
    /// The claimant has already been paid.
    AlreadyClaimed,
    /// The native vault holds less than one claim pays out.
    InsufficientSolBalance,
    /// The caller is not the administrator, or a vault transfer was not
    /// signed by that vault's authority.
    Unauthorized,
    /// The faucet has been initialized before.
    AlreadyInitialized,
    /// The caller's account holds less than the amount to deposit.
    InsufficientCallerBalance,
    /// A transfer out of a vault asks for more than the vault holds.
    InsufficientVaultBalance,
    /// A token account belongs to another owner or another mint than the
    /// operation needs.
    AccountMismatch,
    /// The receiving balance would pass the largest amount an account can
    /// hold.
    BalanceOverflow,
}

impl FaucetError {
    /// The text shown for each error.
    pub open spec fn message_text(self) -> Seq<char> {
        match self {
            FaucetError::AlreadyClaimed => "User has already claimed from this faucet"@,
            FaucetError::InsufficientSolBalance => "Insufficient SOL balance in faucet"@,
            FaucetError::Unauthorized => "Caller lacks the authority for this operation"@,
            FaucetError::AlreadyInitialized => "Faucet has already been initialized"@,
            FaucetError::InsufficientCallerBalance => "Insufficient balance in caller account"@,
            FaucetError::InsufficientVaultBalance => "Insufficient balance in faucet vault"@,
            FaucetError::AccountMismatch => "Token account has the wrong owner or mint"@,
            FaucetError::BalanceOverflow => "Receiving balance would overflow"@,
        }
    }

    /// A human-readable description of the error.
    pub fn message(&self) -> (text: &'static str)
        ensures
            text@ == self.message_text(),
    {
        match self {
            FaucetError::AlreadyClaimed => "User has already claimed from this faucet",
            FaucetError::InsufficientSolBalance => "Insufficient SOL balance in faucet",
            FaucetError::Unauthorized => "Caller lacks the authority for this operation",
            FaucetError::AlreadyInitialized => "Faucet has already been initialized",
            FaucetError::InsufficientCallerBalance => "Insufficient balance in caller account",
            FaucetError::InsufficientVaultBalance => "Insufficient balance in faucet vault",
            FaucetError::AccountMismatch => "Token account has the wrong owner or mint",
            FaucetError::BalanceOverflow => "Receiving balance would overflow",
        }
    }
}

} // verus!
