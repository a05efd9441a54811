use lending_protocol::errors::LendingError;
use lending_protocol::lending::{
    borrow_tokens, deposit_tokens, repay_tokens, withdraw_tokens, BorrowTokens, DepositTokens, RepayTokens,
    WithdrawTokens,
};
use lending_protocol::steps::{Effects, PriceAccountInput, PriceAccounts};
use lending_protocol::structs::{
    LendingProtocol, LendingUserAccount, LendingUserMonthlyStatementAccount, LendingUserTabAccount,
    OraclePriceValidator, Pubkey, SubMarket, TempOraclePriceAccount, TokenReserve, VerifiedPriceData,
};

const ONE: u128 = 1_000_000_000_000_000_000;

fn pk(n: u8) -> Pubkey {
    Pubkey { bytes: [n; 32] }
}

fn program_id() -> Pubkey {
    pk(200)
}

fn signer() -> Pubkey {
    pk(1)
}

fn find_pda(seeds: &[&[u8]], program: Pubkey) -> (Pubkey, u8) {
    let pid = anchor_lang::prelude::Pubkey::new_from_array(program.bytes);
    for bump in (0..=255u8).rev() {
        let b = [bump];
        let mut all: Vec<&[u8]> = seeds.to_vec();
        all.push(&b);
        if let Ok(k) = anchor_lang::prelude::Pubkey::create_program_address(&all, &pid) {
            return (Pubkey { bytes: k.to_bytes() }, bump);
        }
    }
    panic!("no program address");
}

fn protocol(max_tabs: u8) -> LendingProtocol {
    LendingProtocol {
        current_statement_month: 6,
        current_statement_year: 2025,
        max_tabs_per_lending_account: max_tabs,
        look_up_table_address: pk(9),
    }
}

fn reserve(decimals: u8) -> TokenReserve {
    TokenReserve {
        token_id: 1,
        token_decimal_amount: decimals,
        base_borrow_apy: 300,
        global_limit: 1_000_000_000,
        supply_interest_change_index: ONE,
        borrow_interest_change_index: ONE,
        ..Default::default()
    }
}

fn synced_sub_market() -> SubMarket {
    SubMarket { token_id: 1, supply_interest_change_index: ONE, borrow_interest_change_index: ONE, ..Default::default() }
}

fn deposit_ctx(max_tabs: u8) -> DepositTokens {
    DepositTokens {
        signer: signer(),
        sub_market_owner: pk(2),
        lending_protocol: protocol(max_tabs),
        lending_stats: Default::default(),
        token_reserve: reserve(6),
        sub_market: synced_sub_market(),
        lending_user_account: Default::default(),
        lending_user_tab_account: Default::default(),
        lending_user_monthly_statement_account: Default::default(),
        lending_user_account_bump: 250,
        lending_user_tab_account_bump: 251,
        lending_user_monthly_statement_account_bump: 252,
        time_stamp: 1_000,
    }
}

/// A temporary price data account of the signer, at its address, with one price.
fn price_accounts(token_id: u8, price: u128, slot: u64) -> PriceAccounts {
    let (key, bump) = find_pda(&[b"oraclePriceData", &signer().bytes], program_id());
    PriceAccounts {
        temp_price_account: Some(PriceAccountInput {
            key,
            account: TempOraclePriceAccount {
                bump,
                data: vec![VerifiedPriceData { token_id, normalized_price_18_decimals: price }],
                slot,
            },
        }),
        oracle_account: Some(pk(60)),
    }
}

#[test]
fn a_first_deposit_opens_the_accounts_and_books_the_amount() {
    let (c, e) = deposit_tokens(deposit_ctx(10), 3, 0, 500, None, Some(pk(9))).unwrap();
    assert_eq!(e, Effects { into_reserve: Some(500), out_of_reserve: None, refund_oracle_fees: false });
    assert!(c.lending_user_account.lending_user_account_added);
    assert_eq!(c.lending_user_account.account_name, "Generic Depositer");
    assert_eq!(c.lending_user_account.tab_account_count, 1);
    assert_eq!(c.lending_user_account.bump, 250);
    assert!(c.lending_user_tab_account.user_tab_account_added);
    assert_eq!(c.lending_user_tab_account.user_tab_account_index, 0);
    assert_eq!(c.lending_user_tab_account.sub_market_index, 3);
    assert_eq!(c.lending_user_tab_account.deposited_amount, 500);
    assert_eq!(c.token_reserve.deposited_amount, 500);
    assert_eq!(c.sub_market.deposited_amount, 500);
    assert!(c.lending_user_monthly_statement_account.monthly_statement_account_added);
    assert_eq!(c.lending_user_monthly_statement_account.statement_month, 6);
    assert_eq!(c.lending_user_monthly_statement_account.monthly_deposited_amount, 500);
    assert_eq!(c.lending_user_monthly_statement_account.snap_shot_balance_amount, 500);
    assert_eq!(c.lending_stats.deposits, 1);
    assert_eq!(c.token_reserve.last_lending_activity_amount, 500);
    assert_eq!(c.token_reserve.last_lending_activity_type, 0);
    assert_eq!(c.token_reserve.last_lending_activity_time_stamp, 1_000);
    assert_eq!(c.lending_user_tab_account.supply_interest_change_index, ONE);
}

#[test]
fn a_deposit_keeps_a_given_name() {
    let (c, _) = deposit_tokens(deposit_ctx(10), 0, 0, 5, Some("Savings".to_string()), Some(pk(9))).unwrap();
    assert_eq!(c.lending_user_account.account_name, "Savings");
    let (c, _) = deposit_tokens(deposit_ctx(10), 0, 0, 5, Some(String::new()), Some(pk(9))).unwrap();
    assert_eq!(c.lending_user_account.account_name, "Generic Depositer");
}

#[test]
fn a_deposit_over_the_global_limit_is_refused() {
    let r = deposit_tokens(deposit_ctx(10), 0, 0, 1_000_000_001, None, Some(pk(9)));
    assert_eq!(r.err(), Some(LendingError::GlobalLimitExceeded));
    let r = deposit_tokens(deposit_ctx(10), 0, 0, 1_000_000_000, None, Some(pk(9)));
    assert!(r.is_ok());
}

#[test]
fn a_new_user_must_give_a_look_up_table() {
    let r = deposit_tokens(deposit_ctx(10), 0, 0, 5, None, None);
    assert_eq!(r.err(), Some(LendingError::MissingLendingUserLookUpTable));
}

#[test]
fn a_new_account_name_is_at_most_25_bytes() {
    let r = deposit_tokens(deposit_ctx(10), 0, 0, 5, Some("x".repeat(26)), Some(pk(9)));
    assert_eq!(r.err(), Some(LendingError::LendingUserAccountNameTooLong));
    let r = deposit_tokens(deposit_ctx(10), 0, 0, 5, Some("x".repeat(25)), Some(pk(9)));
    assert!(r.is_ok());
    let r = deposit_tokens(deposit_ctx(10), 0, 0, 5, Some("é".repeat(25)), Some(pk(9)));
    assert!(r.is_ok());
    let r = deposit_tokens(deposit_ctx(10), 0, 0, 5, Some("é".repeat(26)), Some(pk(9)));
    assert_eq!(r.err(), Some(LendingError::LendingUserAccountNameTooLong));
}

#[test]
fn a_user_may_open_no_more_tabs_than_allowed() {
    let r = deposit_tokens(deposit_ctx(0), 0, 0, 5, None, Some(pk(9)));
    assert_eq!(r.err(), Some(LendingError::TooManyTabAccounts));
}

fn user_with_collateral(total_deposited: u128, total_borrowed: u128, clock_slot: u64) -> LendingUserAccount {
    LendingUserAccount {
        lending_user_account_added: true,
        tab_account_count: 1,
        total_deposited_usd_value: total_deposited,
        total_borrowed_usd_value: total_borrowed,
        last_health_update_clock_slot: clock_slot,
        account_name: "Bob".to_string(),
        ..Default::default()
    }
}

fn synced_tab(deposited: u64, borrowed: u64) -> LendingUserTabAccount {
    LendingUserTabAccount {
        token_id: 1,
        user_tab_account_added: true,
        deposited_amount: deposited,
        borrowed_amount: borrowed,
        supply_interest_change_index: ONE,
        borrow_interest_change_index: ONE,
        ..Default::default()
    }
}

fn open_statement() -> LendingUserMonthlyStatementAccount {
    LendingUserMonthlyStatementAccount { monthly_statement_account_added: true, ..Default::default() }
}

fn borrow_ctx(total_deposited: u128, total_borrowed: u128, available: u64) -> BorrowTokens {
    let mut tr = reserve(6);
    tr.deposited_amount = 10_000_000_000;
    tr.last_health_update_clock_slot = 150;
    BorrowTokens {
        program_id: program_id(),
        signer: signer(),
        sub_market_owner: pk(2),
        lending_protocol: protocol(10),
        lending_stats: Default::default(),
        price_validator: OraclePriceValidator { bump: 1, address: pk(60) },
        token_reserve: tr,
        sub_market: synced_sub_market(),
        lending_user_account: user_with_collateral(total_deposited, total_borrowed, 150),
        lending_user_tab_account: synced_tab(0, 0),
        lending_user_monthly_statement_account: open_statement(),
        lending_user_tab_account_bump: 1,
        lending_user_monthly_statement_account_bump: 1,
        token_reserve_ata_amount: available,
        time_stamp: 1_000,
        clock_slot: 150,
    }
}

#[test]
fn a_borrow_within_70_percent_is_lent() {
    let ctx = borrow_ctx(1000 * ONE, 0, 10_000_000_000);
    let (c, e) = borrow_tokens(ctx, price_accounts(1, ONE, 100), 0, 0, 500_000_000, false).unwrap();
    assert_eq!(e, Effects { into_reserve: None, out_of_reserve: Some(500_000_000), refund_oracle_fees: true });
    assert_eq!(c.lending_user_account.total_borrowed_usd_value, 500 * ONE);
    assert_eq!(c.lending_user_tab_account.borrowed_amount, 500_000_000);
    assert_eq!(c.token_reserve.borrowed_amount, 500_000_000);
    assert_eq!(c.sub_market.borrowed_amount, 500_000_000);
    assert_eq!(c.token_reserve.utilization_rate, 500);
    assert_eq!(c.lending_stats.borrows, 1);
}

#[test]
fn a_borrow_beyond_70_percent_is_refused() {
    let ctx = borrow_ctx(1000 * ONE, 0, 10_000_000_000);
    let r = borrow_tokens(ctx, price_accounts(1, ONE, 100), 0, 0, 700_000_001, false);
    assert_eq!(r.err(), Some(LendingError::LiquidationExposure));
}

#[test]
fn a_maximal_borrow_takes_the_headroom_or_the_liquidity() {
    let ctx = borrow_ctx(1000 * ONE, 100 * ONE, 10_000_000_000);
    let (c, e) = borrow_tokens(ctx, price_accounts(1, ONE, 100), 0, 0, 0, true).unwrap();
    assert_eq!(e.out_of_reserve, Some(600_000_000));
    assert_eq!(c.lending_user_account.total_borrowed_usd_value, 700 * ONE);
    let ctx = borrow_ctx(1000 * ONE, 100 * ONE, 250_000_000);
    let (c, e) = borrow_tokens(ctx, price_accounts(1, ONE, 100), 0, 0, 0, true).unwrap();
    assert_eq!(e.out_of_reserve, Some(250_000_000));
    assert_eq!(c.lending_user_account.total_borrowed_usd_value, 350 * ONE);
}

#[test]
fn a_borrow_needs_liquidity_fresh_prices_and_a_current_health() {
    let ctx = borrow_ctx(1000 * ONE, 0, 100);
    let r = borrow_tokens(ctx, price_accounts(1, ONE, 100), 0, 0, 100, false);
    assert!(r.is_ok());
    let ctx = borrow_ctx(1000 * ONE, 0, 100);
    let r = borrow_tokens(ctx, price_accounts(1, ONE, 100), 0, 0, 101, false);
    assert_eq!(r.err(), Some(LendingError::InsufficientLiquidity));
    let r = borrow_tokens(borrow_ctx(1000 * ONE, 0, 100), price_accounts(1, ONE, 74), 0, 0, 5, false);
    assert_eq!(r.err(), Some(LendingError::OracleDataStale));
    let r = borrow_tokens(borrow_ctx(1000 * ONE, 0, 100), price_accounts(1, ONE, 75), 0, 0, 5, false);
    assert!(r.is_ok());
    let r = borrow_tokens(borrow_ctx(1000 * ONE, 0, 100), price_accounts(2, ONE, 100), 0, 0, 5, false);
    assert_eq!(r.err(), Some(LendingError::OraclePriceNotFound));
    let mut ctx = borrow_ctx(1000 * ONE, 0, 100);
    ctx.lending_user_account.last_health_update_clock_slot = 149;
    let r = borrow_tokens(ctx, price_accounts(1, ONE, 100), 0, 0, 5, false);
    assert_eq!(r.err(), Some(LendingError::StaleTokenReserveOrLendingUser));
    let r = borrow_tokens(
        borrow_ctx(1000 * ONE, 0, 100),
        PriceAccounts { temp_price_account: None, oracle_account: Some(pk(60)) },
        0,
        0,
        5,
        false,
    );
    assert_eq!(r.err(), Some(LendingError::MissingRemainingAccount));
    let mut pa = price_accounts(1, ONE, 100);
    pa.oracle_account = Some(pk(61));
    let r = borrow_tokens(borrow_ctx(1000 * ONE, 0, 100), pa, 0, 0, 5, false);
    assert_eq!(r.err(), Some(LendingError::PriceOracleKeyMisMatched));
    let mut pa = price_accounts(1, ONE, 100);
    if let Some(p) = pa.temp_price_account.as_mut() {
        p.key = pk(3);
    }
    let r = borrow_tokens(borrow_ctx(1000 * ONE, 0, 100), pa, 0, 0, 5, false);
    assert_eq!(r.err(), Some(LendingError::UnexpectedOraclePriceDataAccount));
}

fn withdraw_ctx(total_deposited: u128, total_borrowed: u128, deposited: u64, available: u64) -> WithdrawTokens {
    let mut tr = reserve(6);
    tr.deposited_amount = deposited as u128;
    let mut sm = synced_sub_market();
    sm.deposited_amount = deposited as u128;
    WithdrawTokens {
        program_id: program_id(),
        signer: signer(),
        sub_market_owner: pk(2),
        lending_protocol: protocol(10),
        lending_stats: Default::default(),
        price_validator: OraclePriceValidator { bump: 1, address: pk(60) },
        token_reserve: tr,
        sub_market: sm,
        lending_user_account: user_with_collateral(total_deposited, total_borrowed, 150),
        lending_user_tab_account: synced_tab(deposited, 0),
        lending_user_monthly_statement_account: open_statement(),
        lending_user_monthly_statement_account_bump: 1,
        token_reserve_ata_amount: available,
        time_stamp: 1_000,
        clock_slot: 150,
    }
}

#[test]
fn a_withdrawal_without_debt_takes_what_is_asked() {
    let none = PriceAccounts { temp_price_account: None, oracle_account: None };
    let (c, e) = withdraw_tokens(withdraw_ctx(0, 0, 800, 1000), none, 0, 0, 300, false).unwrap();
    assert_eq!(e, Effects { into_reserve: None, out_of_reserve: Some(300), refund_oracle_fees: false });
    assert_eq!(c.lending_user_tab_account.deposited_amount, 500);
    assert_eq!(c.token_reserve.deposited_amount, 500);
    assert_eq!(c.sub_market.deposited_amount, 500);
    assert_eq!(c.lending_user_monthly_statement_account.monthly_withdrawal_amount, 300);
    assert_eq!(c.lending_stats.withdrawals, 1);
}

#[test]
fn a_maximal_withdrawal_without_debt_takes_the_deposit_or_the_liquidity() {
    let none = PriceAccounts { temp_price_account: None, oracle_account: None };
    let (_, e) = withdraw_tokens(withdraw_ctx(0, 0, 800, 1000), none, 0, 0, 0, true).unwrap();
    assert_eq!(e.out_of_reserve, Some(800));
    let none = PriceAccounts { temp_price_account: None, oracle_account: None };
    let (_, e) = withdraw_tokens(withdraw_ctx(0, 0, 800, 600), none, 0, 0, 0, true).unwrap();
    assert_eq!(e.out_of_reserve, Some(600));
}

#[test]
fn a_withdrawal_is_limited_by_the_deposit_and_the_liquidity() {
    let none = PriceAccounts { temp_price_account: None, oracle_account: None };
    let r = withdraw_tokens(withdraw_ctx(0, 0, 800, 1000), none, 0, 0, 801, false);
    assert_eq!(r.err(), Some(LendingError::InsufficientFunds));
    let none = PriceAccounts { temp_price_account: None, oracle_account: None };
    let r = withdraw_tokens(withdraw_ctx(0, 0, 800, 700), none, 0, 0, 701, false);
    assert_eq!(r.err(), Some(LendingError::InsufficientLiquidity));
}

#[test]
fn a_withdrawal_with_debt_keeps_the_loan_within_70_percent() {
    // 1000 USD of collateral, 350 USD of debt: 500 USD may leave (350 <= 70% of 500).
    let ctx = withdraw_ctx(1000 * ONE, 350 * ONE, 800_000_000, 800_000_000);
    let (_, e) = withdraw_tokens(ctx, price_accounts(1, ONE, 100), 0, 0, 500_000_000, false).unwrap();
    assert_eq!(e, Effects { into_reserve: None, out_of_reserve: Some(500_000_000), refund_oracle_fees: true });
    let ctx = withdraw_ctx(1000 * ONE, 350 * ONE, 800_000_000, 800_000_000);
    let r = withdraw_tokens(ctx, price_accounts(1, ONE, 100), 0, 0, 500_000_001, false);
    assert_eq!(r.err(), Some(LendingError::LiquidationExposure));
    let ctx = withdraw_ctx(1000 * ONE, 350 * ONE, 800_000_000, 800_000_000);
    let (_, e) = withdraw_tokens(ctx, price_accounts(1, ONE, 100), 0, 0, 0, true).unwrap();
    assert_eq!(e.out_of_reserve, Some(500_000_000));
    let mut ctx = withdraw_ctx(1000 * ONE, 350 * ONE, 800_000_000, 800_000_000);
    ctx.lending_user_account.last_health_update_clock_slot = 1;
    let r = withdraw_tokens(ctx, price_accounts(1, ONE, 100), 0, 0, 5, false);
    assert_eq!(r.err(), Some(LendingError::StaleTokenReserveOrLendingUser));
}

#[test]
fn a_withdrawal_with_debt_lowers_the_collateral_value() {
    let ctx = withdraw_ctx(1000 * ONE, 350 * ONE, 800_000_000, 800_000_000);
    let (c, _) = withdraw_tokens(ctx, price_accounts(1, ONE, 100), 0, 0, 200_000_000, false).unwrap();
    assert_eq!(c.lending_user_account.total_deposited_usd_value, 800 * ONE);
    assert_eq!(c.lending_user_account.total_borrowed_usd_value, 350 * ONE);
    let r = withdraw_tokens(c, price_accounts(1, ONE, 100), 0, 0, 300_000_001, false);
    assert_eq!(r.err(), Some(LendingError::LiquidationExposure));
    let ctx = withdraw_ctx(1000 * ONE, 350 * ONE, 800_000_000, 800_000_000);
    let (c, _) = withdraw_tokens(ctx, price_accounts(1, ONE, 100), 0, 0, 200_000_000, false).unwrap();
    let (c, _) = withdraw_tokens(c, price_accounts(1, ONE, 100), 0, 0, 300_000_000, false).unwrap();
    assert_eq!(c.lending_user_account.total_deposited_usd_value, 500 * ONE);
    let none = PriceAccounts { temp_price_account: None, oracle_account: None };
    let (c, _) = withdraw_tokens(withdraw_ctx(0, 0, 800, 1000), none, 0, 0, 300, false).unwrap();
    assert_eq!(c.lending_user_account.total_deposited_usd_value, 0);
}

fn repay_ctx(total_deposited: u128, total_borrowed: u128, debt: u64) -> RepayTokens {
    let mut tr = reserve(0);
    tr.deposited_amount = 10_000;
    tr.borrowed_amount = debt as u128;
    let mut sm = synced_sub_market();
    sm.borrowed_amount = debt as u128;
    RepayTokens {
        program_id: program_id(),
        signer: signer(),
        sub_market_owner: pk(2),
        price_validator: OraclePriceValidator { bump: 1, address: pk(60) },
        lending_stats: Default::default(),
        token_reserve: tr,
        sub_market: sm,
        lending_user_account: user_with_collateral(total_deposited, total_borrowed, 150),
        lending_user_tab_account: synced_tab(0, debt),
        lending_user_monthly_statement_account: open_statement(),
        clock_slot: 150,
    }
}

#[test]
fn a_repayment_lowers_the_debt_and_its_value() {
    let (c, e) = repay_tokens(repay_ctx(1000 * ONE, 500 * ONE, 1000), price_accounts(1, ONE / 10, 100), 200, false,
        false).unwrap();
    assert_eq!(e, Effects { into_reserve: Some(200), out_of_reserve: None, refund_oracle_fees: true });
    assert_eq!(c.lending_user_tab_account.borrowed_amount, 800);
    assert_eq!(c.lending_user_tab_account.repaid_debt_amount, 200);
    assert_eq!(c.token_reserve.borrowed_amount, 800);
    assert_eq!(c.sub_market.borrowed_amount, 800);
    assert_eq!(c.lending_user_account.total_borrowed_usd_value, 480 * ONE);
    assert_eq!(c.lending_user_monthly_statement_account.snap_shot_debt_amount, 800);
    assert_eq!(c.lending_stats.repayments, 1);
}

#[test]
fn paying_off_a_loan_repays_the_whole_debt() {
    let (c, e) = repay_tokens(repay_ctx(1000 * ONE, 50 * ONE, 1000), price_accounts(1, ONE, 100), 0, true, false)
        .unwrap();
    assert_eq!(e.into_reserve, Some(1000));
    assert_eq!(c.lending_user_tab_account.borrowed_amount, 0);
    assert_eq!(c.lending_user_account.total_borrowed_usd_value, 0);
    let (_, e) = repay_tokens(repay_ctx(1000 * ONE, 50 * ONE, 1000), price_accounts(1, ONE, 100), 0, false, true)
        .unwrap();
    assert_eq!(e.into_reserve, Some(100));
}

#[test]
fn a_repayment_cannot_exceed_the_debt() {
    let r = repay_tokens(repay_ctx(1000 * ONE, 50 * ONE, 1000), price_accounts(1, ONE, 100), 1001, false, false);
    assert_eq!(r.err(), Some(LendingError::TooManyFunds));
}

#[test]
fn an_unhealthy_account_must_repay_a_tenth() {
    let r = repay_tokens(repay_ctx(1000 * ONE, 800 * ONE, 1000), price_accounts(1, ONE, 100), 99, false, false);
    assert_eq!(r.err(), Some(LendingError::GriefingRepayment));
    let r = repay_tokens(repay_ctx(1000 * ONE, 800 * ONE, 1000), price_accounts(1, ONE, 100), 100, false, false);
    assert!(r.is_ok());
    let r = repay_tokens(repay_ctx(1000 * ONE, 799 * ONE, 1000), price_accounts(1, ONE, 100), 1, false, false);
    assert!(r.is_ok());
}
