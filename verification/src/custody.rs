use vstd::prelude::*;

use crate::authority::CustodyAuthority;
use crate::errors::ErrorCode;

verus! {

/// The custody account's recorded balance of the fungible asset, in base
/// units. Native-currency proceeds only pass through transiently inside a
/// swap and are never held across operations, so they are not recorded
/// here.
#[derive(Clone, Copy, Debug)]
pub struct CustodyAccount {
    pub asset_balance: u64,
}

impl CustodyAccount {
    /// A custody account starts empty.
    pub fn new() -> (c: CustodyAccount)
        ensures
            c.asset_balance == 0,
    {
        CustodyAccount { asset_balance: 0 }
    }

    /// Credits `amount` moved in from a user's account, authorized by the
    /// user's own signature rather than by the custody authority. Fails
    /// with InvalidAmount on a zero amount and with AmountOverflow when the
    /// recorded balance cannot take the credit.
    pub fn deposit(&mut self, amount: u64) -> (r: Result<(), ErrorCode>)
        ensures
            amount == 0 ==> r == Err::<(), ErrorCode>(ErrorCode::InvalidAmount)
                && *final(self) == *old(self),
            amount > 0 && old(self).asset_balance + amount > u64::MAX ==> r == Err::<(),
                ErrorCode,
            >(ErrorCode::AmountOverflow) && *final(self) == *old(self),
            amount > 0 && old(self).asset_balance + amount <= u64::MAX ==> r == Ok::<(),
                ErrorCode,
            >(()) && final(self).asset_balance == old(self).asset_balance + amount,
    {
        if amount == 0 {
            return Err(ErrorCode::InvalidAmount);
        }
        if amount > u64::MAX - self.asset_balance {
            return Err(ErrorCode::AmountOverflow);
        }
        self.asset_balance = self.asset_balance + amount;
        Ok(())
    }

    /// Debits `amount` under the custody authority, never under a user
    /// signature. Fails with InvalidAmount on zero and with
    /// InsufficientBalance when the recorded balance, read at call time,
    /// cannot cover the debit: the module never moves more out of custody
    /// than it holds.
    pub fn withdraw(&mut self, authority: &CustodyAuthority, amount: u64) -> (r: Result<
        (),
        ErrorCode,
    >)
        requires
            authority.wf(),
        ensures
            amount == 0 ==> r == Err::<(), ErrorCode>(ErrorCode::InvalidAmount)
                && *final(self) == *old(self),
            amount > old(self).asset_balance ==> r == Err::<(), ErrorCode>(
                ErrorCode::InsufficientBalance,
            ) && *final(self) == *old(self),
            0 < amount <= old(self).asset_balance ==> r == Ok::<(), ErrorCode>(())
                && final(self).asset_balance == old(self).asset_balance - amount,
    {
        if amount == 0 {
            return Err(ErrorCode::InvalidAmount);
        }
        if amount > self.asset_balance {
            return Err(ErrorCode::InsufficientBalance);
        }
        self.asset_balance = self.asset_balance - amount;
        Ok(())
    }

    /// Debits the whole recorded balance under the custody authority, for
    /// delegation into an exchange call, and reports what was debited. The
    /// balance is read fresh at call time, never cached by a caller.
    pub fn take_all(&mut self, authority: &CustodyAuthority) -> (r: u64)
        requires
            authority.wf(),
        ensures
            r == old(self).asset_balance,
            final(self).asset_balance == 0,
    {
        let amount = self.asset_balance;
        self.asset_balance = 0;
        amount
    }
}

} // verus!
