use vstd::prelude::*;

use crate::errors::ErrorCode;

verus! {

/// Fee denominator: 10000 basis points are the whole amount.
pub const BPS_DENOMINATOR: u64 = 10000;

/// Ceiling on the governed fee rate: 1000 basis points, i.e. 10%.
pub const MAX_FEE_BPS: u16 = 1000;

/// Fee rate installed at initialization: 500 basis points, i.e. 5%.
pub const DEFAULT_FEE_BPS: u16 = 500;

/// The split of an amount into the retained fee and the remainder.
#[derive(Clone, Copy, Debug, PartialEq, Eq, Structural)]
pub struct FeeSplit {
    pub fee: u64,
    pub net: u64,
}

/// The fee owed on `amount` at a rate of `fee_bps` basis points:
/// floor(amount * fee_bps / 10000).
pub open spec fn spec_fee(amount: u64, fee_bps: u16) -> int {
    amount * fee_bps / (BPS_DENOMINATOR as int)
}

/// Splits `amount` at `fee_bps` basis points. The fee is
/// floor(amount * fee_bps / 10000), computed in 128 bits so the product
/// cannot overflow before narrowing back to 64 bits; the remainder is
/// `amount - fee`. Fails with AmountOverflow exactly when the fee would
/// exceed the amount, which cannot happen while `fee_bps` is at most 10000;
/// the governed rate is capped far lower, at MAX_FEE_BPS.
pub fn compute_fee(amount: u64, fee_bps: u16) -> (r: Result<FeeSplit, ErrorCode>)
    ensures
        r is Ok <==> spec_fee(amount, fee_bps) <= amount,
        r matches Ok(s) ==> ({
            &&& s.fee == spec_fee(amount, fee_bps)
            &&& s.net == amount - s.fee
            &&& s.fee + s.net == amount
        }),
        r is Err ==> r == Err::<FeeSplit, ErrorCode>(ErrorCode::AmountOverflow),
        fee_bps <= BPS_DENOMINATOR ==> r is Ok,
{
    proof {
        vstd::arithmetic::mul::lemma_mul_inequality(
            amount as int,
            u64::MAX as int,
            fee_bps as int,
        );
        if fee_bps <= BPS_DENOMINATOR {
            vstd::arithmetic::mul::lemma_mul_inequality(
                fee_bps as int,
                BPS_DENOMINATOR as int,
                amount as int,
            );
            vstd::arithmetic::div_mod::lemma_div_is_ordered(
                amount as int * fee_bps as int,
                amount as int * BPS_DENOMINATOR as int,
                BPS_DENOMINATOR as int,
            );
            vstd::arithmetic::div_mod::lemma_div_multiples_vanish(
                amount as int,
                BPS_DENOMINATOR as int,
            );
        }
    }
    let wide: u128 = (amount as u128) * (fee_bps as u128) / (BPS_DENOMINATOR as u128);
    if wide > amount as u128 {
        Err(ErrorCode::AmountOverflow)
    } else {
        let fee: u64 = wide as u64;
        let net: u64 = amount - fee;
        Ok(FeeSplit { fee, net })
    }
}

} // verus!
