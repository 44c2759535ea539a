use vstd::prelude::*;

use crate::account::AccountId;
use crate::authority::CustodyAuthority;
use crate::custody::CustodyAccount;
use crate::errors::ErrorCode;
use crate::events::EmergencyWithdrawn;
use crate::events::FeeUpdated;
use crate::events::PauseToggled;
use crate::events::SwapCompleted;
use crate::events::TaxCollected;
use crate::exchange::build_exchange_call;
use crate::exchange::spec_call_accounts;
use crate::exchange::spec_instruction_data;
use crate::exchange::ExchangeCall;
use crate::exchange::ExchangeOutcome;
use crate::exchange::RaydiumSwapInstruction;
use crate::exchange::SwapTokensForSol;
use crate::exchange::SWAP_INSTRUCTION_TAG;
use crate::fee::compute_fee;
use crate::fee::spec_fee;
use crate::governance::GovernanceRecord;

verus! {

/// The smallest amount `collect_tax` accepts, in base units of the asset.
pub const MIN_TAX_AMOUNT: u64 = 1000;

/// One deployed module instance: the governance singleton and the custody
/// account's recorded asset balance. The operations exposed to callers all
/// live here; the host ledger serializes invocations and locks the state,
/// so each operation owns it exclusively for its duration, and any failure
/// rolls the whole transaction back.
#[derive(Clone, Copy, Debug)]
pub struct SwapProgram {
    pub governance: GovernanceRecord,
    pub custody: CustodyAccount,
}

/// Creates the module instance: the caller-supplied admin, the default fee
/// of 500 basis points, not paused, an empty custody account. Callable once
/// per instance; the once-ness is enforced by the host's account-creation
/// semantics, outside this module.
pub fn initialize(admin: AccountId) -> (s: SwapProgram)
    ensures
        s.governance == GovernanceRecord::spec_init(admin),
        s.custody.asset_balance == 0,
        s.wf(),
{
    SwapProgram { governance: GovernanceRecord::new(admin), custody: CustodyAccount::new() }
}

/// The validation sequence of a swap request, in order: the pause gate, the
/// zero-minimum check, the deadline, the custody balance. None means the
/// request is valid.
pub open spec fn spec_swap_validation(
    g: GovernanceRecord,
    asset_balance: u64,
    minimum_sol_amount: u64,
    deadline: i64,
    now: i64,
) -> Option<ErrorCode> {
    if g.paused {
        Some(ErrorCode::ProgramPaused)
    } else if minimum_sol_amount == 0 {
        Some(ErrorCode::InvalidAmount)
    } else if now > deadline {
        Some(ErrorCode::SwapExpired)
    } else if asset_balance == 0 {
        Some(ErrorCode::InsufficientBalance)
    } else {
        None
    }
}

impl SwapProgram {
    /// Well-formedness of the whole instance.
    pub open spec fn wf(self) -> bool {
        self.governance.wf()
    }

    /// Admin-gated fee change: fails with Unauthorized for any other caller
    /// and with InvalidFee above the 10% ceiling; otherwise overwrites the
    /// rate and reports the old and new values.
    pub fn update_fee(&mut self, caller: &AccountId, new_fee_bps: u16) -> (r: Result<
        FeeUpdated,
        ErrorCode,
    >)
        requires
            old(self).wf(),
        ensures
            final(self).wf(),
            final(self).custody == old(self).custody,
            final(self).governance.admin == old(self).governance.admin,
            final(self).governance.paused == old(self).governance.paused,
            caller@ != old(self).governance.admin@ ==> r == Err::<FeeUpdated, ErrorCode>(
                ErrorCode::Unauthorized,
            ) && *final(self) == *old(self),
            caller@ == old(self).governance.admin@ && new_fee_bps > crate::fee::MAX_FEE_BPS ==> r
                == Err::<FeeUpdated, ErrorCode>(ErrorCode::InvalidFee) && *final(self) == *old(
                self,
            ),
            caller@ == old(self).governance.admin@ && new_fee_bps <= crate::fee::MAX_FEE_BPS
                ==> ({
                &&& r == Ok::<FeeUpdated, ErrorCode>(
                    (FeeUpdated {
                        old_fee_bps: old(self).governance.fee_basis_points,
                        new_fee_bps,
                    }),
                )
                &&& final(self).governance.fee_basis_points == new_fee_bps
            }),
    {
        if !self.governance.is_admin(caller) {
            return Err(ErrorCode::Unauthorized);
        }
        if new_fee_bps > crate::fee::MAX_FEE_BPS {
            return Err(ErrorCode::InvalidFee);
        }
        let old_fee_bps = self.governance.fee_basis_points;
        self.governance.fee_basis_points = new_fee_bps;
        Ok(FeeUpdated { old_fee_bps, new_fee_bps })
    }

    /// Admin-gated pause flip; reports the new state. Every operation gated
    /// by `assert_active` fails with ProgramPaused after a toggle that sets
    /// the flag and works again after a second one
    /// (`governance::lemma_pause_gate_round_trip`).
    pub fn toggle_pause(&mut self, caller: &AccountId) -> (r: Result<PauseToggled, ErrorCode>)
        requires
            old(self).wf(),
        ensures
            final(self).wf(),
            caller@ != old(self).governance.admin@ ==> r == Err::<PauseToggled, ErrorCode>(
                ErrorCode::Unauthorized,
            ) && *final(self) == *old(self),
            caller@ == old(self).governance.admin@ ==> ({
                &&& r == Ok::<PauseToggled, ErrorCode>(
                    (PauseToggled { paused: !old(self).governance.paused }),
                )
                &&& final(self).governance == old(self).governance.spec_toggled()
                &&& final(self).custody == old(self).custody
            }),
    {
        if !self.governance.is_admin(caller) {
            return Err(ErrorCode::Unauthorized);
        }
        self.governance.paused = !self.governance.paused;
        Ok(PauseToggled { paused: self.governance.paused })
    }

    /// Collects `amount` of the asset from `user` into custody: gated by
    /// the pause flag, floored at MIN_TAX_AMOUNT, with the fee and the
    /// remainder computed at the governed rate for the emitted fact. The
    /// full amount is credited to custody; the split is accounting only,
    /// not routed to a separate destination, a policy choice this design
    /// keeps deliberately.
    pub fn collect_tax(&mut self, user: AccountId, amount: u64, now: i64) -> (r: Result<
        TaxCollected,
        ErrorCode,
    >)
        requires
            old(self).wf(),
        ensures
            final(self).wf(),
            final(self).governance == old(self).governance,
            old(self).governance.paused ==> r == Err::<TaxCollected, ErrorCode>(
                ErrorCode::ProgramPaused,
            ) && *final(self) == *old(self),
            !old(self).governance.paused && amount < MIN_TAX_AMOUNT ==> r == Err::<
                TaxCollected,
                ErrorCode,
            >(ErrorCode::InvalidAmount) && *final(self) == *old(self),
            !old(self).governance.paused && amount >= MIN_TAX_AMOUNT && old(
                self,
            ).custody.asset_balance + amount > u64::MAX ==> r == Err::<TaxCollected, ErrorCode>(
                ErrorCode::AmountOverflow,
            ) && *final(self) == *old(self),
            !old(self).governance.paused && amount >= MIN_TAX_AMOUNT && old(
                self,
            ).custody.asset_balance + amount <= u64::MAX ==> ({
                &&& r == Ok::<TaxCollected, ErrorCode>(
                    (TaxCollected {
                        amount,
                        fee_amount: spec_fee(
                            amount,
                            old(self).governance.fee_basis_points,
                        ) as u64,
                        net_amount: (amount - spec_fee(
                            amount,
                            old(self).governance.fee_basis_points,
                        )) as u64,
                        user,
                        timestamp: now,
                    }),
                )
                &&& final(self).custody.asset_balance == old(self).custody.asset_balance + amount
            }),
    {
        match self.governance.assert_active() {
            Err(e) => {
                return Err(e);
            },
            Ok(()) => {},
        }
        if amount < MIN_TAX_AMOUNT {
            return Err(ErrorCode::InvalidAmount);
        }
        let split = match compute_fee(amount, self.governance.fee_basis_points) {
            Ok(s) => s,
            Err(e) => {
                return Err(e);
            },
        };
        match self.custody.deposit(amount) {
            Err(e) => {
                return Err(e);
            },
            Ok(()) => {},
        }
        Ok(TaxCollected {
            amount,
            fee_amount: split.fee,
            net_amount: split.net,
            user,
            timestamp: now,
        })
    }

    /// Validates a swap request and builds the delegated exchange call for
    /// the whole custody balance, read fresh at call time. Pure: the state
    /// is untouched; the call is executed outside the module and settled by
    /// `swap_tokens_for_sol`.
    pub fn prepare_swap(
        &self,
        accounts: &SwapTokensForSol,
        exchange_program: AccountId,
        authority: &CustodyAuthority,
        minimum_sol_amount: u64,
        deadline: i64,
        now: i64,
    ) -> (r: Result<ExchangeCall, ErrorCode>)
        requires
            self.wf(),
            authority.wf(),
        ensures
            ({
                let v = spec_swap_validation(
                    self.governance,
                    self.custody.asset_balance,
                    minimum_sol_amount,
                    deadline,
                    now,
                );
                &&& v matches Some(e) ==> r == Err::<ExchangeCall, ErrorCode>(e)
                &&& v is None ==> ({
                    &&& r is Ok
                    &&& r matches Ok(c) ==> ({
                        &&& c.program == exchange_program
                        &&& c.accounts@ == spec_call_accounts(*accounts, authority.spec_address())
                        &&& c.data@ == spec_instruction_data(
                            (RaydiumSwapInstruction {
                                instruction: SWAP_INSTRUCTION_TAG,
                                amount_in: self.custody.asset_balance,
                                minimum_amount_out: minimum_sol_amount,
                            }),
                        )
                    })
                })
            }),
    {
        match self.governance.assert_active() {
            Err(e) => {
                return Err(e);
            },
            Ok(()) => {},
        }
        if minimum_sol_amount == 0 {
            return Err(ErrorCode::InvalidAmount);
        }
        if now > deadline {
            return Err(ErrorCode::SwapExpired);
        }
        let balance = self.custody.asset_balance;
        if balance == 0 {
            return Err(ErrorCode::InsufficientBalance);
        }
        Ok(
            build_exchange_call(
                exchange_program,
                accounts,
                authority.address(),
                balance,
                minimum_sol_amount,
            ),
        )
    }

    /// The swap operation end to end, with the exchange's outcome supplied
    /// by the surrounding transaction: validates the request, delegates the
    /// whole custody balance, read fresh at call time, into the exchange
    /// call, and on a fill forwards the custody account's fresh native
    /// balance to the receiver, reporting the completed swap. Any failure
    /// leaves the recorded state unchanged; the host transaction boundary
    /// makes the same true of the real balances.
    pub fn swap_tokens_for_sol(
        &mut self,
        accounts: &SwapTokensForSol,
        exchange_program: AccountId,
        authority: &CustodyAuthority,
        minimum_sol_amount: u64,
        deadline: i64,
        now: i64,
        outcome: ExchangeOutcome,
    ) -> (r: Result<SwapCompleted, ErrorCode>)
        requires
            old(self).wf(),
            authority.wf(),
        ensures
            final(self).wf(),
            final(self).governance == old(self).governance,
            ({
                let v = spec_swap_validation(
                    old(self).governance,
                    old(self).custody.asset_balance,
                    minimum_sol_amount,
                    deadline,
                    now,
                );
                &&& v matches Some(e) ==> r == Err::<SwapCompleted, ErrorCode>(e)
                    && *final(self) == *old(self)
                &&& v is None && outcome is Rejected ==> r == Err::<SwapCompleted, ErrorCode>(
                    ErrorCode::DelegatedCallRejected,
                ) && *final(self) == *old(self)
                &&& outcome matches ExchangeOutcome::Filled { native_balance } ==> v is None ==> ({
                    &&& r == Ok::<SwapCompleted, ErrorCode>(
                        (SwapCompleted {
                            token_amount: old(self).custody.asset_balance,
                            sol_amount: native_balance,
                            receiver: accounts.receiver,
                            timestamp: now,
                        }),
                    )
                    &&& final(self).custody.asset_balance == 0
                })
            }),
    {
        match self.governance.assert_active() {
            Err(e) => {
                return Err(e);
            },
            Ok(()) => {},
        }
        if minimum_sol_amount == 0 {
            return Err(ErrorCode::InvalidAmount);
        }
        if now > deadline {
            return Err(ErrorCode::SwapExpired);
        }
        if self.custody.asset_balance == 0 {
            return Err(ErrorCode::InsufficientBalance);
        }
        match outcome {
            ExchangeOutcome::Rejected => Err(ErrorCode::DelegatedCallRejected),
            ExchangeOutcome::Filled { native_balance } => {
                let token_amount = self.custody.take_all(authority);
                Ok(
                    SwapCompleted {
                        token_amount,
                        sol_amount: native_balance,
                        receiver: accounts.receiver,
                        timestamp: now,
                    },
                )
            },
        }
    }

    /// Admin-only direct withdrawal from custody, authorized by the derived
    /// custody authority, never by a user signature. A non-admin caller
    /// gets Unauthorized and the custody balance is untouched; a zero
    /// amount is InvalidAmount; more than the recorded balance is
    /// InsufficientBalance.
    pub fn emergency_withdraw(
        &mut self,
        caller: &AccountId,
        authority: &CustodyAuthority,
        amount: u64,
        now: i64,
    ) -> (r: Result<EmergencyWithdrawn, ErrorCode>)
        requires
            old(self).wf(),
            authority.wf(),
        ensures
            final(self).wf(),
            final(self).governance == old(self).governance,
            caller@ != old(self).governance.admin@ ==> r == Err::<EmergencyWithdrawn, ErrorCode>(
                ErrorCode::Unauthorized,
            ) && *final(self) == *old(self),
            caller@ == old(self).governance.admin@ && amount == 0 ==> r == Err::<
                EmergencyWithdrawn,
                ErrorCode,
            >(ErrorCode::InvalidAmount) && *final(self) == *old(self),
            caller@ == old(self).governance.admin@ && amount > old(self).custody.asset_balance
                ==> r == Err::<EmergencyWithdrawn, ErrorCode>(ErrorCode::InsufficientBalance)
                && *final(self) == *old(self),
            caller@ == old(self).governance.admin@ && 0 < amount <= old(
                self,
            ).custody.asset_balance ==> ({
                &&& r == Ok::<EmergencyWithdrawn, ErrorCode>(
                    (EmergencyWithdrawn { amount, admin: *caller, timestamp: now }),
                )
                &&& final(self).custody.asset_balance == old(self).custody.asset_balance - amount
            }),
    {
        if !self.governance.is_admin(caller) {
            return Err(ErrorCode::Unauthorized);
        }
        match self.custody.withdraw(authority, amount) {
            Err(e) => Err(e),
            Ok(()) => Ok(EmergencyWithdrawn { amount, admin: *caller, timestamp: now }),
        }
    }
}

/// A swap request with a zero minimum output is rejected as InvalidAmount
/// whatever the custody balance and the deadline, on any unpaused record.
/// (A paused module reports ProgramPaused instead: the pause check comes
/// first in the validation order.)
pub proof fn lemma_zero_minimum_always_invalid(
    g: GovernanceRecord,
    asset_balance: u64,
    deadline: i64,
    now: i64,
)
    requires
        !g.paused,
    ensures
        spec_swap_validation(g, asset_balance, 0, deadline, now) == Some(ErrorCode::InvalidAmount),
{
}

/// A swap request submitted strictly after its deadline is rejected as
/// SwapExpired; one submitted at exactly the deadline passes every
/// validation step on an unpaused record with a positive minimum output
/// and a funded custody account.
pub proof fn lemma_deadline_boundary(
    g: GovernanceRecord,
    asset_balance: u64,
    minimum_sol_amount: u64,
    deadline: i64,
    now: i64,
)
    requires
        !g.paused,
        minimum_sol_amount > 0,
    ensures
        now > deadline ==> spec_swap_validation(g, asset_balance, minimum_sol_amount, deadline, now)
            == Some(ErrorCode::SwapExpired),
        asset_balance > 0 ==> spec_swap_validation(
            g,
            asset_balance,
            minimum_sol_amount,
            deadline,
            deadline,
        ) is None,
{
}

} // verus!
