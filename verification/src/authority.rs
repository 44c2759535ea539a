use vstd::prelude::*;

use crate::account::AccountId;

verus! {

/// What the address derivation yields for the fixed custody seed and a
/// module identity: the derived address and its bump byte, or nothing in
/// the statistically impossible case that no bump yields a valid address.
/// A name, not a definition: the derivation is a hash search that only the
/// ledger SDK computes.
pub uninterp spec fn custody_pda_of(program: Seq<u8>) -> Option<(Seq<u8>, u8)>;

/// Relies on `Pubkey::try_find_program_address` (anchor_lang's re-export of
/// the ledger SDK address type), called with the single fixed seed
/// b"swap_wallet": a pure, deterministic derivation from that seed and the
/// program identity. With one seed of 11 bytes it cannot hit the seed-count
/// or seed-length limits, so it never panics; it returns None only if every
/// bump byte yields an address on the ed25519 curve.
#[verifier::external_body]
fn find_custody_pda(program_id: &AccountId) -> (r: Option<(AccountId, u8)>)
    ensures
        r matches Some(p) ==> custody_pda_of(program_id@) == Some((p.0@, p.1)),
        r is None ==> custody_pda_of(program_id@) is None,
{
    let pk = anchor_lang::solana_program::pubkey::Pubkey::new_from_array(program_id.to_bytes());
    match anchor_lang::solana_program::pubkey::Pubkey::try_find_program_address(
        &[b"swap_wallet"],
        &pk,
    ) {
        Some((address, bump)) => Some((AccountId::new(address.to_bytes()), bump)),
        None => None,
    }
}

/// The capability to sign for the custody account: the module identity the
/// derivation started from, the derived address, and the bump byte that
/// completes the derivation. Only `derive` produces one, so holding a
/// well-formed value stands for having re-run the derivation inside the
/// module's own execution context; no party holds a private key for the
/// address.
#[derive(Clone, Copy, Debug)]
pub struct CustodyAuthority {
    program: AccountId,
    address: AccountId,
    bump: u8,
}

impl CustodyAuthority {
    /// The module identity this capability was derived from.
    pub closed spec fn spec_program_id(self) -> AccountId {
        self.program
    }

    /// The derived custody address.
    pub closed spec fn spec_address(self) -> AccountId {
        self.address
    }

    /// The bump byte that completes the derivation.
    pub closed spec fn spec_bump(self) -> u8 {
        self.bump
    }

    /// The derivation for this module identity really yields this address
    /// and bump.
    pub open spec fn wf(self) -> bool {
        custody_pda_of(self.spec_program_id()@) == Some((self.spec_address()@, self.spec_bump()))
    }

    /// Derives the custody authority for the module identity `program_id`,
    /// from the fixed label and that identity alone. Deterministic: the
    /// same identity always yields the same address and bump
    /// (`lemma_derivation_deterministic`).
    pub fn derive(program_id: &AccountId) -> (r: Option<CustodyAuthority>)
        ensures
            r matches Some(a) ==> a.wf() && a.spec_program_id() == *program_id,
            r is None ==> custody_pda_of(program_id@) is None,
    {
        match find_custody_pda(program_id) {
            Some((address, bump)) => Some(CustodyAuthority { program: *program_id, address, bump }),
            None => None,
        }
    }

    pub fn address(&self) -> (r: AccountId)
        ensures
            r == self.spec_address(),
    {
        self.address
    }

    pub fn bump(&self) -> (r: u8)
        ensures
            r == self.spec_bump(),
    {
        self.bump
    }
}

/// Authority derivation is a function of the module identity alone: two
/// well-formed capabilities for identities with the same bytes carry the
/// same address bytes and the same bump, so a custody account created once
/// is always re-derivable, for deposits and withdrawals alike.
pub proof fn lemma_derivation_deterministic(a: CustodyAuthority, b: CustodyAuthority)
    requires
        a.wf(),
        b.wf(),
        a.spec_program_id()@ == b.spec_program_id()@,
    ensures
        a.spec_address()@ == b.spec_address()@,
        a.spec_bump() == b.spec_bump(),
{
}

} // verus!
