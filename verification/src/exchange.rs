use vstd::prelude::*;

use vstd::bytes::spec_u64_to_le_bytes;
use vstd::bytes::u64_to_le_bytes;

use crate::account::AccountId;

verus! {

/// The instruction tag the external exchange expects for an
/// asset-for-native swap.
pub const SWAP_INSTRUCTION_TAG: u8 = 9;

/// The fixed instruction layout the external exchange accepts: a tag byte,
/// the amount delegated in, and the minimum acceptable output.
#[derive(Clone, Copy, Debug, PartialEq, Eq, Structural)]
pub struct RaydiumSwapInstruction {
    pub instruction: u8,
    pub amount_in: u64,
    pub minimum_amount_out: u64,
}

/// The 17-byte wire encoding of a swap instruction: the tag byte, then each
/// amount in little-endian order.
pub open spec fn spec_instruction_data(ix: RaydiumSwapInstruction) -> Seq<u8> {
    seq![ix.instruction] + spec_u64_to_le_bytes(ix.amount_in) + spec_u64_to_le_bytes(
        ix.minimum_amount_out,
    )
}

impl RaydiumSwapInstruction {
    /// Serializes the instruction byte-for-byte as the exchange expects it.
    pub fn encode(&self) -> (r: Vec<u8>)
        ensures
            r@ == spec_instruction_data(*self),
            r@.len() == 17,
    {
        let mut data: Vec<u8> = Vec::new();
        data.push(self.instruction);
        let mut amount_bytes = u64_to_le_bytes(self.amount_in);
        data.append(&mut amount_bytes);
        let mut minimum_bytes = u64_to_le_bytes(self.minimum_amount_out);
        data.append(&mut minimum_bytes);
        proof {
            assert(data@ =~= spec_instruction_data(*self));
        }
        data
    }
}

/// One account reference in the delegated exchange call.
#[derive(Clone, Copy, Debug, PartialEq, Eq)]
pub struct CallAccount {
    pub id: AccountId,
    pub is_signer: bool,
    pub is_writable: bool,
}

/// The account references a swap hands to the external exchange and to the
/// forwarding step: pool, market, order-book and vault accounts, the
/// receiver of the native proceeds, and the asset-ledger program. The
/// module passes them through without validating their internal
/// consistency; that check belongs to the exchange program itself and is
/// the design's main trust boundary.
#[derive(Clone, Copy, Debug)]
pub struct SwapTokensForSol {
    pub amm_id: AccountId,
    pub amm_authority: AccountId,
    pub source_info: AccountId,
    pub destination_info: AccountId,
    pub pool_token_coin_account: AccountId,
    pub pool_token_pc_account: AccountId,
    pub serum_program_id: AccountId,
    pub serum_market: AccountId,
    pub serum_bids: AccountId,
    pub serum_asks: AccountId,
    pub serum_event_queue: AccountId,
    pub serum_coin_vault_account: AccountId,
    pub serum_pc_vault_account: AccountId,
    pub serum_vault_signer: AccountId,
    pub receiver: AccountId,
    pub token_program: AccountId,
}

/// The exact account order the external exchange requires, with the custody
/// account as the one signer. Sixteen entries, all writable but the
/// asset-ledger program at the end.
pub open spec fn spec_call_accounts(ctx: SwapTokensForSol, custody: AccountId) -> Seq<
    CallAccount,
> {
    seq![
        (CallAccount { id: ctx.amm_id, is_signer: false, is_writable: true }),
        (CallAccount { id: ctx.amm_authority, is_signer: false, is_writable: true }),
        (CallAccount { id: custody, is_signer: true, is_writable: true }),
        (CallAccount { id: ctx.source_info, is_signer: false, is_writable: true }),
        (CallAccount { id: ctx.destination_info, is_signer: false, is_writable: true }),
        (CallAccount { id: ctx.pool_token_coin_account, is_signer: false, is_writable: true }),
        (CallAccount { id: ctx.pool_token_pc_account, is_signer: false, is_writable: true }),
        (CallAccount { id: ctx.serum_program_id, is_signer: false, is_writable: true }),
        (CallAccount { id: ctx.serum_market, is_signer: false, is_writable: true }),
        (CallAccount { id: ctx.serum_bids, is_signer: false, is_writable: true }),
        (CallAccount { id: ctx.serum_asks, is_signer: false, is_writable: true }),
        (CallAccount { id: ctx.serum_event_queue, is_signer: false, is_writable: true }),
        (CallAccount { id: ctx.serum_coin_vault_account, is_signer: false, is_writable: true }),
        (CallAccount { id: ctx.serum_pc_vault_account, is_signer: false, is_writable: true }),
        (CallAccount { id: ctx.serum_vault_signer, is_signer: false, is_writable: true }),
        (CallAccount { id: ctx.token_program, is_signer: false, is_writable: false }),
    ]
}

/// A fully-formed delegated call to the external exchange: the exchange
/// program to invoke, the ordered account references, and the instruction
/// bytes.
#[derive(Clone, Debug)]
pub struct ExchangeCall {
    pub program: AccountId,
    pub accounts: Vec<CallAccount>,
    pub data: Vec<u8>,
}

/// Builds the delegated exchange call: it instructs `exchange_program` to
/// convert `amount_in` custody-held asset units into native currency,
/// accepting no less than `minimum_amount_out`, with the custody account
/// `custody` as the order's signer. The account order and the instruction
/// bytes are reproduced exactly as the exchange requires them.
pub fn build_exchange_call(
    exchange_program: AccountId,
    accounts: &SwapTokensForSol,
    custody: AccountId,
    amount_in: u64,
    minimum_amount_out: u64,
) -> (r: ExchangeCall)
    ensures
        r.program == exchange_program,
        r.accounts@ == spec_call_accounts(*accounts, custody),
        r.data@ == spec_instruction_data(
            (RaydiumSwapInstruction {
                instruction: SWAP_INSTRUCTION_TAG,
                amount_in,
                minimum_amount_out,
            }),
        ),
{
    let ix = RaydiumSwapInstruction {
        instruction: SWAP_INSTRUCTION_TAG,
        amount_in,
        minimum_amount_out,
    };
    let data = ix.encode();
    let mut metas: Vec<CallAccount> = Vec::new();
    metas.push(CallAccount { id: accounts.amm_id, is_signer: false, is_writable: true });
    metas.push(CallAccount { id: accounts.amm_authority, is_signer: false, is_writable: true });
    metas.push(CallAccount { id: custody, is_signer: true, is_writable: true });
    metas.push(CallAccount { id: accounts.source_info, is_signer: false, is_writable: true });
    metas.push(CallAccount { id: accounts.destination_info, is_signer: false, is_writable: true });
    metas.push(
        CallAccount { id: accounts.pool_token_coin_account, is_signer: false, is_writable: true },
    );
    metas.push(
        CallAccount { id: accounts.pool_token_pc_account, is_signer: false, is_writable: true },
    );
    metas.push(CallAccount { id: accounts.serum_program_id, is_signer: false, is_writable: true });
    metas.push(CallAccount { id: accounts.serum_market, is_signer: false, is_writable: true });
    metas.push(CallAccount { id: accounts.serum_bids, is_signer: false, is_writable: true });
    metas.push(CallAccount { id: accounts.serum_asks, is_signer: false, is_writable: true });
    metas.push(CallAccount { id: accounts.serum_event_queue, is_signer: false, is_writable: true });
    metas.push(
        CallAccount { id: accounts.serum_coin_vault_account, is_signer: false, is_writable: true },
    );
    metas.push(
        CallAccount { id: accounts.serum_pc_vault_account, is_signer: false, is_writable: true },
    );
    metas.push(
        CallAccount { id: accounts.serum_vault_signer, is_signer: false, is_writable: true },
    );
    metas.push(CallAccount { id: accounts.token_program, is_signer: false, is_writable: false });
    proof {
        assert(metas@ =~= spec_call_accounts(*accounts, custody));
    }
    ExchangeCall { program: exchange_program, accounts: metas, data }
}

/// What the external exchange did with a delegated call: either it filled
/// the order, leaving the custody account's fresh native balance at
/// `native_balance`, or it rejected the call outright (slippage bound,
/// malformed accounts, or an exchange-side pause), in which case the host
/// transaction rolls the whole operation back.
#[derive(Clone, Copy, Debug, PartialEq, Eq, Structural)]
pub enum ExchangeOutcome {
    Filled { native_balance: u64 },
    Rejected,
}

} // verus!
