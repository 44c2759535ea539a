use anchor_lang::solana_program::pubkey::Pubkey;
use second_swap::account::AccountId;
use second_swap::authority::CustodyAuthority;

#[test]
fn derivation_is_deterministic() {
    let program_id = AccountId::new([7; 32]);
    let a = CustodyAuthority::derive(&program_id).unwrap();
    let b = CustodyAuthority::derive(&program_id).unwrap();
    assert_eq!(a.address(), b.address());
    assert_eq!(a.bump(), b.bump());
}

#[test]
fn derived_address_is_not_the_program_id() {
    let program_id = AccountId::new([7; 32]);
    let a = CustodyAuthority::derive(&program_id).unwrap();
    assert_ne!(a.address(), program_id);
}

#[test]
fn different_programs_derive_different_custody_addresses() {
    let a = CustodyAuthority::derive(&AccountId::new([7; 32])).unwrap();
    let b = CustodyAuthority::derive(&AccountId::new([8; 32])).unwrap();
    assert_ne!(a.address(), b.address());
}

#[test]
fn derivation_matches_the_ledger_sdk() {
    let bytes = [7; 32];
    let a = CustodyAuthority::derive(&AccountId::new(bytes)).unwrap();
    let (expected, expected_bump) =
        Pubkey::find_program_address(&[b"swap_wallet"], &Pubkey::new_from_array(bytes));
    assert_eq!(a.address().to_bytes(), expected.to_bytes());
    assert_eq!(a.bump(), expected_bump);
}
