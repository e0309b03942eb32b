//! The fixed amounts that one claim pays out.

use vstd::prelude::*;

verus! {

/// Native coin paid out per claim, in the coin's smallest unit.
pub const SOL_CLAIM_AMOUNT: u64 = 100;

/// Token units paid out per claim.
pub const USDC_CLAIM_AMOUNT: u64 = 50;

} // verus!
