use vstd::prelude::*;

use crate::account::AccountId;

verus! {

/// Fact recorded when a fee collection completes: the full amount moved
/// into custody, with the fee/net split computed at the governed rate. The
/// split is accounting only; the fee is not routed to a separate
/// destination.
#[derive(Clone, Copy, Debug, PartialEq, Eq)]
pub struct TaxCollected {
    pub amount: u64,
    pub fee_amount: u64,
    pub net_amount: u64,
    pub user: AccountId,
    pub timestamp: i64,
}

/// Fact recorded when a swap completes: `token_amount` units of the asset
/// left custody through the exchange and `sol_amount` native units were
/// forwarded to `receiver`.
#[derive(Clone, Copy, Debug, PartialEq, Eq)]
pub struct SwapCompleted {
    pub token_amount: u64,
    pub sol_amount: u64,
    pub receiver: AccountId,
    pub timestamp: i64,
}

/// Fact recorded when the admin changes the fee rate; carries the old and
/// new values.
#[derive(Clone, Copy, Debug, PartialEq, Eq, Structural)]
pub struct FeeUpdated {
    pub old_fee_bps: u16,
    pub new_fee_bps: u16,
}

/// Fact recorded when the admin flips the pause flag; carries the new
/// state.
#[derive(Clone, Copy, Debug, PartialEq, Eq, Structural)]
pub struct PauseToggled {
    pub paused: bool,
}

/// Fact recorded when the admin withdraws custody funds directly.
#[derive(Clone, Copy, Debug, PartialEq, Eq)]
pub struct EmergencyWithdrawn {
    pub amount: u64,
    pub admin: AccountId,
    pub timestamp: i64,
}

} // verus!
