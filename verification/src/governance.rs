use vstd::prelude::*;

use crate::account::AccountId;
use crate::errors::ErrorCode;
use crate::fee::DEFAULT_FEE_BPS;
use crate::fee::MAX_FEE_BPS;

verus! {

/// The governance singleton of one module instance: the admin identity with
/// exclusive rights over the rate, the pause flag and custody withdrawals;
/// the fee rate in basis points; and the pause flag that gates every
/// fee-collection and swap path. Created once at initialization, never
/// deleted.
#[derive(Clone, Copy, Debug)]
pub struct GovernanceRecord {
    pub admin: AccountId,
    pub fee_basis_points: u16,
    pub paused: bool,
}

impl GovernanceRecord {
    /// Well-formedness: the fee rate never exceeds the 10% ceiling. Writes
    /// go through `update_fee`, which validates the new rate, so every
    /// record reachable from initialization satisfies this.
    pub open spec fn wf(self) -> bool {
        self.fee_basis_points <= MAX_FEE_BPS
    }

    /// The record as initialization creates it: the caller-supplied admin,
    /// the default fee rate of 500 basis points, not paused.
    pub open spec fn spec_init(admin: AccountId) -> GovernanceRecord {
        GovernanceRecord { admin, fee_basis_points: DEFAULT_FEE_BPS, paused: false }
    }

    pub fn new(admin: AccountId) -> (g: GovernanceRecord)
        ensures
            g == Self::spec_init(admin),
            g.wf(),
    {
        GovernanceRecord { admin, fee_basis_points: DEFAULT_FEE_BPS, paused: false }
    }

    /// The same record with the pause flag flipped.
    pub open spec fn spec_toggled(self) -> GovernanceRecord {
        GovernanceRecord { paused: !self.paused, ..self }
    }

    /// What the pause gate answers on this record.
    pub open spec fn spec_gate(self) -> Result<(), ErrorCode> {
        if self.paused {
            Err(ErrorCode::ProgramPaused)
        } else {
            Ok(())
        }
    }

    /// The read-only gate used by every fee-collection and swap path: fails
    /// with ProgramPaused exactly when the record is paused.
    pub fn assert_active(&self) -> (r: Result<(), ErrorCode>)
        ensures
            r == self.spec_gate(),
    {
        if self.paused {
            Err(ErrorCode::ProgramPaused)
        } else {
            Ok(())
        }
    }

    /// Whether `caller` is the registered admin.
    pub fn is_admin(&self, caller: &AccountId) -> (r: bool)
        ensures
            r == (caller@ == self.admin@),
    {
        caller.equals(&self.admin)
    }
}

/// The pause gate closes after one toggle and reopens after a second: on
/// an unpaused record, one toggle makes `spec_gate` report ProgramPaused,
/// and a second toggle restores the record exactly, active again.
pub proof fn lemma_pause_gate_round_trip(g: GovernanceRecord)
    requires
        !g.paused,
    ensures
        g.spec_toggled().paused,
        g.spec_toggled().spec_gate() == Err::<(), ErrorCode>(ErrorCode::ProgramPaused),
        g.spec_toggled().spec_toggled() == g,
        g.spec_toggled().spec_toggled().spec_gate() == Ok::<(), ErrorCode>(()),
{
}

} // verus!
