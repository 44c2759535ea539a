use second_swap::account::AccountId;
use second_swap::errors::ErrorCode;
use second_swap::events::FeeUpdated;
use second_swap::events::PauseToggled;
use second_swap::program::initialize;

fn id(tag: u8) -> AccountId {
    AccountId::new([tag; 32])
}

#[test]
fn initialize_installs_defaults() {
    let admin = id(1);
    let st = initialize(admin);
    assert_eq!(st.governance.admin, admin);
    assert_eq!(st.governance.fee_basis_points, 500);
    assert!(!st.governance.paused);
    assert_eq!(st.custody.asset_balance, 0);
}

#[test]
fn update_fee_above_ceiling_is_invalid_fee() {
    let admin = id(1);
    let mut st = initialize(admin);
    let r = st.update_fee(&admin, 1500);
    assert_eq!(r, Err(ErrorCode::InvalidFee));
    assert_eq!(st.governance.fee_basis_points, 500);
}

#[test]
fn update_fee_within_ceiling_is_reflected_by_reads() {
    let admin = id(1);
    let mut st = initialize(admin);
    let r = st.update_fee(&admin, 600);
    assert_eq!(r, Ok(FeeUpdated { old_fee_bps: 500, new_fee_bps: 600 }));
    assert_eq!(st.governance.fee_basis_points, 600);
}

#[test]
fn update_fee_by_non_admin_is_unauthorized() {
    let admin = id(1);
    let outsider = id(2);
    let mut st = initialize(admin);
    let r = st.update_fee(&outsider, 600);
    assert_eq!(r, Err(ErrorCode::Unauthorized));
    assert_eq!(st.governance.fee_basis_points, 500);
}

#[test]
fn toggle_pause_by_non_admin_is_unauthorized() {
    let admin = id(1);
    let outsider = id(2);
    let mut st = initialize(admin);
    let r = st.toggle_pause(&outsider);
    assert_eq!(r, Err(ErrorCode::Unauthorized));
    assert!(!st.governance.paused);
}

#[test]
fn pause_gates_operations_and_a_second_toggle_reopens() {
    let admin = id(1);
    let user = id(2);
    let mut st = initialize(admin);

    let r = st.toggle_pause(&admin);
    assert_eq!(r, Ok(PauseToggled { paused: true }));
    assert_eq!(st.collect_tax(user, 1_000_000, 10), Err(ErrorCode::ProgramPaused));
    assert_eq!(st.custody.asset_balance, 0);

    let r = st.toggle_pause(&admin);
    assert_eq!(r, Ok(PauseToggled { paused: false }));
    assert!(st.collect_tax(user, 1_000_000, 10).is_ok());
    assert_eq!(st.custody.asset_balance, 1_000_000);
}

#[test]
fn collect_tax_below_minimum_is_invalid_amount() {
    let admin = id(1);
    let user = id(2);
    let mut st = initialize(admin);
    assert_eq!(st.collect_tax(user, 999, 10), Err(ErrorCode::InvalidAmount));
    assert_eq!(st.custody.asset_balance, 0);
}

#[test]
fn collect_tax_that_overflows_custody_is_amount_overflow() {
    let admin = id(1);
    let user = id(2);
    let mut st = initialize(admin);
    st.custody.asset_balance = u64::MAX - 10;
    assert_eq!(st.collect_tax(user, 1_000, 10), Err(ErrorCode::AmountOverflow));
    assert_eq!(st.custody.asset_balance, u64::MAX - 10);
}

#[test]
fn emergency_withdraw_by_non_admin_is_unauthorized_and_keeps_custody() {
    let admin = id(1);
    let outsider = id(2);
    let user = id(3);
    let program_id = id(9);
    let auth = second_swap::authority::CustodyAuthority::derive(&program_id).unwrap();
    let mut st = initialize(admin);
    st.collect_tax(user, 5_000, 10).unwrap();
    assert_eq!(st.custody.asset_balance, 5_000);

    let r = st.emergency_withdraw(&outsider, &auth, 5_000, 11);
    assert_eq!(r, Err(ErrorCode::Unauthorized));
    assert_eq!(st.custody.asset_balance, 5_000);
}

#[test]
fn emergency_withdraw_error_cases_and_success() {
    let admin = id(1);
    let user = id(3);
    let program_id = id(9);
    let auth = second_swap::authority::CustodyAuthority::derive(&program_id).unwrap();
    let mut st = initialize(admin);
    st.collect_tax(user, 5_000, 10).unwrap();

    assert_eq!(st.emergency_withdraw(&admin, &auth, 0, 11), Err(ErrorCode::InvalidAmount));
    assert_eq!(
        st.emergency_withdraw(&admin, &auth, 5_001, 11),
        Err(ErrorCode::InsufficientBalance)
    );
    assert_eq!(st.custody.asset_balance, 5_000);

    let fact = st.emergency_withdraw(&admin, &auth, 2_000, 11).unwrap();
    assert_eq!(fact.amount, 2_000);
    assert_eq!(fact.admin, admin);
    assert_eq!(fact.timestamp, 11);
    assert_eq!(st.custody.asset_balance, 3_000);
}
