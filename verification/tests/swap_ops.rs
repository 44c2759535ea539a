use second_swap::account::AccountId;
use second_swap::authority::CustodyAuthority;
use second_swap::errors::ErrorCode;
use second_swap::exchange::build_exchange_call;
use second_swap::exchange::ExchangeOutcome;
use second_swap::exchange::RaydiumSwapInstruction;
use second_swap::exchange::SwapTokensForSol;
use second_swap::program::initialize;

fn id(tag: u8) -> AccountId {
    AccountId::new([tag; 32])
}

fn accounts() -> SwapTokensForSol {
    SwapTokensForSol {
        amm_id: id(10),
        amm_authority: id(11),
        source_info: id(12),
        destination_info: id(13),
        pool_token_coin_account: id(14),
        pool_token_pc_account: id(15),
        serum_program_id: id(16),
        serum_market: id(17),
        serum_bids: id(18),
        serum_asks: id(19),
        serum_event_queue: id(20),
        serum_coin_vault_account: id(21),
        serum_pc_vault_account: id(22),
        serum_vault_signer: id(23),
        receiver: id(24),
        token_program: id(25),
    }
}

fn authority() -> CustodyAuthority {
    CustodyAuthority::derive(&id(9)).unwrap()
}

#[test]
fn zero_minimum_output_is_invalid_amount_whatever_the_balance() {
    let admin = id(1);
    let user = id(2);
    let exchange = id(8);
    let auth = authority();

    let mut empty = initialize(admin);
    let r = empty.swap_tokens_for_sol(
        &accounts(),
        exchange,
        &auth,
        0,
        100,
        10,
        ExchangeOutcome::Filled { native_balance: 5 },
    );
    assert_eq!(r, Err(ErrorCode::InvalidAmount));

    let mut funded = initialize(admin);
    funded.collect_tax(user, 1_000_000, 10).unwrap();
    let r = funded.swap_tokens_for_sol(
        &accounts(),
        exchange,
        &auth,
        0,
        100,
        10,
        ExchangeOutcome::Filled { native_balance: 5 },
    );
    assert_eq!(r, Err(ErrorCode::InvalidAmount));
    assert_eq!(funded.custody.asset_balance, 1_000_000);
}

#[test]
fn past_deadline_is_swap_expired_and_exact_deadline_is_not() {
    let admin = id(1);
    let user = id(2);
    let exchange = id(8);
    let auth = authority();

    let mut st = initialize(admin);
    st.collect_tax(user, 1_000_000, 10).unwrap();

    let r = st.swap_tokens_for_sol(
        &accounts(),
        exchange,
        &auth,
        1,
        100,
        101,
        ExchangeOutcome::Filled { native_balance: 5 },
    );
    assert_eq!(r, Err(ErrorCode::SwapExpired));
    assert_eq!(st.custody.asset_balance, 1_000_000);

    let r = st.swap_tokens_for_sol(
        &accounts(),
        exchange,
        &auth,
        1,
        100,
        100,
        ExchangeOutcome::Filled { native_balance: 5 },
    );
    assert!(r.is_ok());
}

#[test]
fn empty_custody_is_insufficient_balance() {
    let admin = id(1);
    let exchange = id(8);
    let auth = authority();
    let mut st = initialize(admin);
    let r = st.swap_tokens_for_sol(
        &accounts(),
        exchange,
        &auth,
        1,
        100,
        10,
        ExchangeOutcome::Filled { native_balance: 5 },
    );
    assert_eq!(r, Err(ErrorCode::InsufficientBalance));
}

#[test]
fn rejected_exchange_call_leaves_custody_unchanged() {
    let admin = id(1);
    let user = id(2);
    let exchange = id(8);
    let auth = authority();
    let mut st = initialize(admin);
    st.collect_tax(user, 1_000_000, 10).unwrap();
    let r = st.swap_tokens_for_sol(
        &accounts(),
        exchange,
        &auth,
        1,
        100,
        10,
        ExchangeOutcome::Rejected,
    );
    assert_eq!(r, Err(ErrorCode::DelegatedCallRejected));
    assert_eq!(st.custody.asset_balance, 1_000_000);
}

#[test]
fn end_to_end_collect_then_swap_against_a_mock_exchange() {
    let admin = id(1);
    let user = id(2);
    let exchange = id(8);
    let receiver = accounts().receiver;
    let auth = authority();
    let now: i64 = 1_700_000_000;

    let mut st = initialize(admin);
    assert_eq!(st.governance.fee_basis_points, 500);

    let fact = st.collect_tax(user, 1_000_000, now).unwrap();
    assert_eq!(st.custody.asset_balance, 1_000_000);
    assert_eq!(fact.amount, 1_000_000);
    assert_eq!(fact.fee_amount, 50_000);
    assert_eq!(fact.net_amount, 950_000);
    assert_eq!(fact.user, user);

    // The mock exchange fills the delegated call and leaves a fixed native
    // balance in custody.
    let native_out: u64 = 123_456_789;
    let mut receiver_native_balance: u64 = 0;

    let call = st
        .prepare_swap(&accounts(), exchange, &auth, 1, now + 900, now)
        .unwrap();
    assert_eq!(call.program, exchange);
    assert_eq!(call.accounts.len(), 16);

    let done = st
        .swap_tokens_for_sol(
            &accounts(),
            exchange,
            &auth,
            1,
            now + 900,
            now,
            ExchangeOutcome::Filled { native_balance: native_out },
        )
        .unwrap();
    receiver_native_balance += done.sol_amount;

    assert_eq!(st.custody.asset_balance, 0);
    assert_eq!(done.token_amount, 1_000_000);
    assert_eq!(done.sol_amount, native_out);
    assert_eq!(done.receiver, receiver);
    assert_eq!(done.timestamp, now);
    assert_eq!(receiver_native_balance, native_out);
}

#[test]
fn instruction_encoding_is_tag_then_little_endian_amounts() {
    let ix = RaydiumSwapInstruction { instruction: 9, amount_in: 1, minimum_amount_out: 2 };
    assert_eq!(
        ix.encode(),
        vec![9, 1, 0, 0, 0, 0, 0, 0, 0, 2, 0, 0, 0, 0, 0, 0, 0]
    );

    let ix = RaydiumSwapInstruction {
        instruction: 9,
        amount_in: 0x0102_0304_0506_0708,
        minimum_amount_out: u64::MAX,
    };
    assert_eq!(
        ix.encode(),
        vec![
            9, 0x08, 0x07, 0x06, 0x05, 0x04, 0x03, 0x02, 0x01, 0xff, 0xff, 0xff, 0xff, 0xff,
            0xff, 0xff, 0xff
        ]
    );
}

#[test]
fn exchange_call_reproduces_account_order_and_flags() {
    let auth = authority();
    let custody = auth.address();
    let exchange = id(8);
    let ctx = accounts();
    let call = build_exchange_call(exchange, &ctx, custody, 77, 55);

    assert_eq!(call.program, exchange);
    let expected_ids = vec![
        ctx.amm_id,
        ctx.amm_authority,
        custody,
        ctx.source_info,
        ctx.destination_info,
        ctx.pool_token_coin_account,
        ctx.pool_token_pc_account,
        ctx.serum_program_id,
        ctx.serum_market,
        ctx.serum_bids,
        ctx.serum_asks,
        ctx.serum_event_queue,
        ctx.serum_coin_vault_account,
        ctx.serum_pc_vault_account,
        ctx.serum_vault_signer,
        ctx.token_program,
    ];
    assert_eq!(call.accounts.len(), expected_ids.len());
    for (i, meta) in call.accounts.iter().enumerate() {
        assert_eq!(meta.id, expected_ids[i]);
        assert_eq!(meta.is_signer, i == 2);
        assert_eq!(meta.is_writable, i != 15);
    }
    let ix = RaydiumSwapInstruction { instruction: 9, amount_in: 77, minimum_amount_out: 55 };
    assert_eq!(call.data, ix.encode());
}

#[test]
fn prepare_swap_reports_validation_errors_without_touching_state() {
    let admin = id(1);
    let exchange = id(8);
    let auth = authority();
    let st = initialize(admin);
    let r = st.prepare_swap(&accounts(), exchange, &auth, 0, 100, 10);
    assert!(matches!(r, Err(ErrorCode::InvalidAmount)));
    let r = st.prepare_swap(&accounts(), exchange, &auth, 1, 100, 101);
    assert!(matches!(r, Err(ErrorCode::SwapExpired)));
    let r = st.prepare_swap(&accounts(), exchange, &auth, 1, 100, 10);
    assert!(matches!(r, Err(ErrorCode::InsufficientBalance)));
}
