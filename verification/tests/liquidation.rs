use lending_protocol::errors::LendingError;
use lending_protocol::cross_liquidation::{liquidate_account, LiquidateAccount};
use lending_protocol::liquidation::{
    liquidate_account_same_sub_market, liquidate_account_same_token, liquidation_terms, seized_collateral, Keyed,
    LiquidateAccountSameSubMarket, LiquidateAccountSameToken, LiquidationArgs, SubMarketPair,
};
use lending_protocol::validation::TokenAccountKeys;
use lending_protocol::steps::Effects;
use lending_protocol::structs::{
    LendingProtocol, LendingStats, LendingUserAccount, LendingUserMonthlyStatementAccount, LendingUserTabAccount,
    OraclePriceValidator, Pubkey, SubMarket, TempOraclePriceAccount, TokenReserve, VerifiedPriceData,
};

const ONE: u128 = 1_000_000_000_000_000_000;

fn pk(n: u8) -> Pubkey {
    Pubkey { bytes: [n; 32] }
}

fn program_id() -> Pubkey {
    pk(200)
}

fn find_pda(seeds: &[&[u8]], program: Pubkey) -> (Pubkey, u8) {
    let pid = anchor_lang::prelude::Pubkey::new_from_array(program.bytes);
    for bump in (0..=255u8).rev() {
        let b = [bump];
        let mut all: Vec<&[u8]> = seeds.to_vec();
        all.push(&b);
        if let Ok(k) = anchor_lang::prelude::Pubkey::create_program_address(&all, &pid) {
            return (Pubkey { bytes: k.to_bytes() }, bump);
        }
    }
    panic!("no program address");
}

#[test]
fn an_account_below_80_percent_is_not_liquidatable() {
    let r = liquidation_terms(1000 * ONE, 799 * ONE, 1000, ONE, 1, false, true, 0);
    assert_eq!(r, Err(LendingError::NotLiquidatable));
    let r = liquidation_terms(100, 0, u64::MAX, ONE, 1, false, true, 0);
    assert_eq!(r, Err(LendingError::NotLiquidatable));
}

#[test]
fn a_liquidation_repays_at_most_half_of_the_debt() {
    assert_eq!(liquidation_terms(1000 * ONE, 800 * ONE, 1000, ONE, 1, false, true, 0), Ok((500, 500 * ONE, 800 * ONE)));
    assert_eq!(liquidation_terms(1000 * ONE, 800 * ONE, 1000, ONE, 1, false, false, 300), Ok((300, 300 * ONE, 800 * ONE)));
    assert_eq!(
        liquidation_terms(1000 * ONE, 800 * ONE, 1000, ONE, 1, false, false, 501),
        Err(LendingError::OverLiquidation)
    );
}

#[test]
fn a_liquidation_repays_at_least_a_tenth_of_the_debt() {
    assert_eq!(
        liquidation_terms(1000 * ONE, 900 * ONE, 1000, ONE, 1, false, false, 99),
        Err(LendingError::GriefingRepayment)
    );
    assert_eq!(liquidation_terms(1000 * ONE, 900 * ONE, 1000, ONE, 1, false, false, 100), Ok((100, 100 * ONE, 900 * ONE)));
}

#[test]
fn paying_off_an_insolvent_account() {
    assert_eq!(
        liquidation_terms(1000 * ONE, 999 * ONE, 1000, ONE, 1, true, true, 0),
        Err(LendingError::NotInsolvent)
    );
    assert_eq!(liquidation_terms(1000 * ONE, 1200 * ONE, 1000, ONE, 1, true, true, 0), Ok((1000, 1000 * ONE, 200 * ONE)));
    assert_eq!(liquidation_terms(1000 * ONE, 1200 * ONE, 1000, 2 * ONE, 1, true, true, 0), Ok((1000, 2000 * ONE, 0)));
    assert_eq!(
        liquidation_terms(1000 * ONE, 1200 * ONE, 1000, ONE, 1, true, false, 5000),
        Ok((1000, 1000 * ONE, 1200 * ONE))
    );
}

#[test]
fn seized_collateral_carries_a_bonus_and_a_fee() {
    assert_eq!(seized_collateral(500 * ONE, 1_000_000, 2 * ONE, 1_000_000_000), (267_500_000, 2_500_000));
    assert_eq!(seized_collateral(500 * ONE, 1_000_000, 2 * ONE, 100_000_000), (99_000_000, 1_000_000));
    let (bonus, fee) = seized_collateral(500 * ONE, 1_000_000, 2 * ONE, 270_000_000);
    assert_eq!((bonus, fee), (267_500_000, 2_500_000));
    let (bonus, fee) = seized_collateral(500 * ONE, 1_000_000, 2 * ONE, 269_999_999);
    assert!(bonus + fee <= 269_999_999);
    assert_eq!(fee, 2_699_999);
}

fn lending_protocol() -> LendingProtocol {
    LendingProtocol {
        current_statement_month: 6,
        current_statement_year: 2025,
        max_tabs_per_lending_account: 10,
        look_up_table_address: pk(9),
    }
}

fn same_sub_market_ctx() -> LiquidateAccountSameSubMarket {
    let signer = pk(1);
    let sm_owner = pk(2);
    let liquidati = pk(3);
    let index: u16 = 0;
    let year: u16 = 2025;
    let (temp_key, temp_bump) = find_pda(&[b"oraclePriceData", &signer.bytes], program_id());
    let (stats_key, stats_bump) = find_pda(&[b"lendingStats"], program_id());
    let (sm_key, sm_bump) = find_pda(&[b"subMarket", &[1], &sm_owner.bytes, &index.to_le_bytes()], program_id());
    let (tab_key, tab_bump) = find_pda(
        &[b"lendingUserTabAccount", &[1], &sm_owner.bytes, &index.to_le_bytes(), &liquidati.bytes, &[0]],
        program_id(),
    );
    let (st_key, st_bump) = find_pda(
        &[
            b"userMonthlyStatementAccount",
            &[6],
            &year.to_le_bytes(),
            &[1],
            &sm_owner.bytes,
            &index.to_le_bytes(),
            &liquidati.bytes,
            &[0],
        ],
        program_id(),
    );
    let token_reserve = TokenReserve {
        token_id: 1,
        token_decimal_amount: 0,
        base_borrow_apy: 300,
        deposited_amount: 10_000,
        borrowed_amount: 1000,
        supply_interest_change_index: ONE,
        borrow_interest_change_index: ONE,
        last_lending_activity_time_stamp: 77,
        ..Default::default()
    };
    LiquidateAccountSameSubMarket {
        program_id: program_id(),
        signer,
        sub_market_owner: sm_owner,
        liquidati_account_owner: liquidati,
        lending_protocol: lending_protocol(),
        price_validator: OraclePriceValidator { bump: 1, address: pk(60) },
        token_reserve,
        liquidati_lending_account: LendingUserAccount {
            lending_user_account_added: true,
            total_deposited_usd_value: 1000 * ONE,
            total_borrowed_usd_value: 900 * ONE,
            last_health_update_clock_slot: 150,
            ..Default::default()
        },
        liquidator_lending_account: Default::default(),
        liquidator_tab_account: Default::default(),
        liquidator_monthly_statement_account: Default::default(),
        liquidator_lending_account_bump: 1,
        liquidator_tab_account_bump: 2,
        liquidator_monthly_statement_account_bump: 3,
        clock_slot: 150,
        temp_price_account: Some(Keyed {
            key: temp_key,
            account: TempOraclePriceAccount {
                bump: temp_bump,
                data: vec![VerifiedPriceData { token_id: 1, normalized_price_18_decimals: ONE }],
                slot: 100,
            },
        }),
        lending_stats: Some(Keyed { key: stats_key, account: LendingStats { bump: stats_bump, ..Default::default() } }),
        sub_market: Some(Keyed {
            key: sm_key,
            account: SubMarket {
                bump: sm_bump,
                token_id: 1,
                deposited_amount: 10_000,
                borrowed_amount: 1000,
                supply_interest_change_index: ONE,
                borrow_interest_change_index: ONE,
                ..Default::default()
            },
        }),
        liquidati_tab_account: Some(Keyed {
            key: tab_key,
            account: LendingUserTabAccount {
                bump: tab_bump,
                token_id: 1,
                user_tab_account_added: true,
                deposited_amount: 2000,
                borrowed_amount: 1000,
                supply_interest_change_index: ONE,
                borrow_interest_change_index: ONE,
                ..Default::default()
            },
        }),
        liquidati_monthly_statement_account: Some(Keyed {
            key: st_key,
            account: LendingUserMonthlyStatementAccount {
                bump: st_bump,
                monthly_statement_account_added: true,
                ..Default::default()
            },
        }),
        oracle_account: Some(pk(60)),
    }
}

fn args(repay_max: bool, amount: u64, send_reward_to_wallet: bool) -> LiquidationArgs {
    LiquidationArgs {
        liquidati_account_index: 0,
        liquidator_account_index: 0,
        amount_to_repay: amount,
        repay_max,
        paying_off_insolvent_account: false,
        send_reward_to_wallet,
    }
}

#[test]
fn a_liquidation_within_one_sub_market_repays_and_seizes() {
    let (c, e) =
        liquidate_account_same_sub_market(same_sub_market_ctx(), 0, args(true, 0, false), None, Some(pk(9))).unwrap();
    assert_eq!(e, Effects { into_reserve: Some(500), out_of_reserve: None, refund_oracle_fees: true });
    let tab = c.liquidati_tab_account.unwrap().account;
    assert_eq!(tab.borrowed_amount, 500);
    assert_eq!(tab.deposited_amount, 1460);
    assert_eq!(tab.liquidated_amount, 540);
    assert_eq!(c.token_reserve.borrowed_amount, 500);
    assert_eq!(c.token_reserve.repaid_debt_amount, 500);
    assert_eq!(c.token_reserve.deposited_amount, 9995);
    assert_eq!(c.token_reserve.uncollected_liquidation_fees_amount, 5);
    assert_eq!(c.token_reserve.liquidated_amount, 540);
    assert_eq!(c.token_reserve.last_lending_activity_amount, 540);
    assert_eq!(c.token_reserve.last_lending_activity_type, 4);
    let sm = c.sub_market.unwrap().account;
    assert_eq!(sm.deposited_amount, 9995);
    assert_eq!(sm.liquidation_fees_generated_amount, 5);
    assert_eq!(sm.last_lending_activity_time_stamp, 77);
    assert_eq!(c.liquidator_tab_account.deposited_amount, 535);
    assert_eq!(c.liquidator_tab_account.liquidator_amount, 535);
    assert_eq!(c.liquidator_tab_account.fees_generated_amount, 5);
    assert_eq!(c.liquidator_tab_account.repaid_debt_amount, 500);
    assert_eq!(c.liquidator_lending_account.account_name, "Generic Liquidator");
    assert_eq!(c.lending_stats.unwrap().account.liquidations, 1);
    assert_eq!(c.liquidati_monthly_statement_account.unwrap().account.snap_shot_balance_amount, 1460);
}

#[test]
fn a_liquidation_may_send_the_reward_to_the_wallet() {
    let (c, e) =
        liquidate_account_same_sub_market(same_sub_market_ctx(), 0, args(false, 200, true), None, Some(pk(9))).unwrap();
    assert_eq!(e, Effects { into_reserve: Some(200), out_of_reserve: Some(214), refund_oracle_fees: true });
    assert_eq!(c.liquidator_tab_account.deposited_amount, 0);
    assert_eq!(c.token_reserve.deposited_amount, 10_000 - 2 - 214);
}

#[test]
fn a_liquidation_checks_its_accounts() {
    let mut ctx = same_sub_market_ctx();
    ctx.liquidati_lending_account.last_health_update_clock_slot = 149;
    let r = liquidate_account_same_sub_market(ctx, 0, args(true, 0, false), None, Some(pk(9)));
    assert_eq!(r.err(), Some(LendingError::StaleTokenReserveOrLendingUser));
    let mut ctx = same_sub_market_ctx();
    ctx.lending_stats = None;
    let r = liquidate_account_same_sub_market(ctx, 0, args(true, 0, false), None, Some(pk(9)));
    assert_eq!(r.err(), Some(LendingError::MissingRemainingAccount));
    let r = liquidate_account_same_sub_market(same_sub_market_ctx(), 1, args(true, 0, false), None, Some(pk(9)));
    assert_eq!(r.err(), Some(LendingError::UnexpectedSubMarketAccount));
    let mut ctx = same_sub_market_ctx();
    ctx.oracle_account = Some(pk(61));
    let r = liquidate_account_same_sub_market(ctx, 0, args(true, 0, false), None, Some(pk(9)));
    assert_eq!(r.err(), Some(LendingError::PriceOracleKeyMisMatched));
    let mut ctx = same_sub_market_ctx();
    ctx.liquidati_lending_account.total_borrowed_usd_value = 700 * ONE;
    let r = liquidate_account_same_sub_market(ctx, 0, args(true, 0, false), None, Some(pk(9)));
    assert_eq!(r.err(), Some(LendingError::NotLiquidatable));
}

fn keyed_tab(token_id: u8, sm_owner: Pubkey, index: u16, owner: Pubkey, deposited: u64, borrowed: u64)
    -> Keyed<LendingUserTabAccount> {
    let (key, bump) = find_pda(
        &[b"lendingUserTabAccount", &[token_id], &sm_owner.bytes, &index.to_le_bytes(), &owner.bytes, &[0]],
        program_id(),
    );
    Keyed {
        key,
        account: LendingUserTabAccount {
            bump,
            token_id,
            user_tab_account_added: true,
            deposited_amount: deposited,
            borrowed_amount: borrowed,
            supply_interest_change_index: ONE,
            borrow_interest_change_index: ONE,
            ..Default::default()
        },
    }
}

fn keyed_statement(token_id: u8, sm_owner: Pubkey, index: u16, owner: Pubkey)
    -> Keyed<LendingUserMonthlyStatementAccount> {
    let year: u16 = 2025;
    let (key, bump) = find_pda(
        &[
            b"userMonthlyStatementAccount",
            &[6],
            &year.to_le_bytes(),
            &[token_id],
            &sm_owner.bytes,
            &index.to_le_bytes(),
            &owner.bytes,
            &[0],
        ],
        program_id(),
    );
    Keyed { key, account: LendingUserMonthlyStatementAccount { bump, monthly_statement_account_added: true, ..Default::default() } }
}

fn keyed_sub_market(token_id: u8, sm_owner: Pubkey, index: u16, deposited: u128, borrowed: u128) -> Keyed<SubMarket> {
    let (key, bump) = find_pda(&[b"subMarket", &[token_id], &sm_owner.bytes, &index.to_le_bytes()], program_id());
    Keyed {
        key,
        account: SubMarket {
            bump,
            token_id,
            deposited_amount: deposited,
            borrowed_amount: borrowed,
            supply_interest_change_index: ONE,
            borrow_interest_change_index: ONE,
            ..Default::default()
        },
    }
}

fn temp_prices(prices: Vec<VerifiedPriceData>) -> Option<Keyed<TempOraclePriceAccount>> {
    let (key, bump) = find_pda(&[b"oraclePriceData", &pk(1).bytes], program_id());
    Some(Keyed { key, account: TempOraclePriceAccount { bump, data: prices, slot: 100 } })
}

fn stats() -> Option<Keyed<LendingStats>> {
    let (key, bump) = find_pda(&[b"lendingStats"], program_id());
    Some(Keyed { key, account: LendingStats { bump, ..Default::default() } })
}

fn token_reserve(token_id: u8) -> TokenReserve {
    TokenReserve {
        token_id,
        base_borrow_apy: 300,
        deposited_amount: 10_000,
        borrowed_amount: 1000,
        supply_interest_change_index: ONE,
        borrow_interest_change_index: ONE,
        ..Default::default()
    }
}

fn liquidati_account() -> LendingUserAccount {
    LendingUserAccount {
        lending_user_account_added: true,
        total_deposited_usd_value: 1000 * ONE,
        total_borrowed_usd_value: 900 * ONE,
        last_health_update_clock_slot: 150,
        ..Default::default()
    }
}

fn same_token_ctx() -> LiquidateAccountSameToken {
    let owner = pk(2);
    let liquidati = pk(3);
    LiquidateAccountSameToken {
        program_id: program_id(),
        signer: pk(1),
        repayment_sub_market_owner: owner,
        liquidation_sub_market_owner: owner,
        liquidati_account_owner: liquidati,
        lending_protocol: lending_protocol(),
        price_validator: OraclePriceValidator { bump: 1, address: pk(60) },
        token_reserve: token_reserve(1),
        liquidati_lending_account: liquidati_account(),
        liquidator_lending_account: Default::default(),
        liquidator_repayment_tab_account: Default::default(),
        liquidator_liquidation_tab_account: Default::default(),
        liquidator_repayment_monthly_statement_account: Default::default(),
        liquidator_liquidation_monthly_statement_account: Default::default(),
        liquidator_lending_account_bump: 1,
        liquidator_repayment_tab_account_bump: 2,
        liquidator_liquidation_tab_account_bump: 3,
        liquidator_repayment_monthly_statement_account_bump: 4,
        liquidator_liquidation_monthly_statement_account_bump: 5,
        clock_slot: 150,
        temp_price_account: temp_prices(vec![VerifiedPriceData { token_id: 1, normalized_price_18_decimals: ONE }]),
        lending_stats: stats(),
        repayment_sub_market: Some(keyed_sub_market(1, owner, 0, 5000, 1000)),
        liquidation_sub_market: Some(keyed_sub_market(1, owner, 1, 5000, 0)),
        liquidati_repayment_tab_account: Some(keyed_tab(1, owner, 0, liquidati, 0, 1000)),
        liquidati_liquidation_tab_account: Some(keyed_tab(1, owner, 1, liquidati, 2000, 0)),
        liquidati_repayment_monthly_statement_account: Some(keyed_statement(1, owner, 0, liquidati)),
        liquidati_liquidation_monthly_statement_account: Some(keyed_statement(1, owner, 1, liquidati)),
        oracle_account: Some(pk(60)),
    }
}

#[test]
fn a_liquidation_across_two_sub_markets_of_one_token() {
    let m = SubMarketPair { repayment_sub_market_index: 0, liquidation_sub_market_index: 1 };
    let (c, e) = liquidate_account_same_token(same_token_ctx(), m, args(true, 0, false), None, Some(pk(9))).unwrap();
    assert_eq!(e, Effects { into_reserve: Some(500), out_of_reserve: None, refund_oracle_fees: true });
    assert_eq!(c.liquidati_repayment_tab_account.unwrap().account.borrowed_amount, 500);
    assert_eq!(c.liquidati_liquidation_tab_account.unwrap().account.deposited_amount, 1460);
    assert_eq!(c.repayment_sub_market.unwrap().account.borrowed_amount, 500);
    assert_eq!(c.liquidation_sub_market.unwrap().account.deposited_amount, 4995);
    assert_eq!(c.token_reserve.borrowed_amount, 500);
    assert_eq!(c.token_reserve.deposited_amount, 9995);
    assert_eq!(c.liquidator_liquidation_tab_account.deposited_amount, 535);
    assert_eq!(c.liquidator_repayment_tab_account.repaid_debt_amount, 500);
    assert_eq!(c.liquidator_lending_account.tab_account_count, 2);
    let r = liquidate_account_same_token(
        same_token_ctx(),
        SubMarketPair { repayment_sub_market_index: 1, liquidation_sub_market_index: 0 },
        args(true, 0, false),
        None,
        Some(pk(9)),
    );
    assert_eq!(r.err(), Some(LendingError::UnexpectedSubMarketAccount));
}

fn cross_ctx() -> LiquidateAccount {
    let owner = pk(2);
    let liquidati = pk(3);
    let (ua_key, ua_bump) = find_pda(&[b"lendingUserAccount", &liquidati.bytes, &[0]], program_id());
    let (pv_key, pv_bump) = find_pda(&[b"oraclePriceValidator"], program_id());
    LiquidateAccount {
        program_id: program_id(),
        signer: pk(1),
        repayment_sub_market_owner: owner,
        liquidation_sub_market_owner: owner,
        liquidati_account_owner: liquidati,
        repayment_mint: pk(101),
        liquidation_mint: pk(102),
        repayment_token_reserve_key: pk(111),
        liquidation_token_reserve_key: pk(112),
        lending_protocol: lending_protocol(),
        repayment_token_reserve: token_reserve(1),
        liquidation_token_reserve: token_reserve(2),
        liquidator_lending_account: Default::default(),
        liquidator_repayment_tab_account: Default::default(),
        liquidator_liquidation_tab_account: Default::default(),
        liquidator_repayment_monthly_statement_account: Default::default(),
        liquidator_liquidation_monthly_statement_account: Default::default(),
        liquidator_lending_account_bump: 1,
        liquidator_repayment_tab_account_bump: 2,
        liquidator_liquidation_tab_account_bump: 3,
        liquidator_repayment_monthly_statement_account_bump: 4,
        liquidator_liquidation_monthly_statement_account_bump: 5,
        clock_slot: 150,
        liquidati_lending_account: Some(Keyed { key: ua_key, account: LendingUserAccount { bump: ua_bump, ..liquidati_account() } }),
        repayment_token_reserve_ata: Some(Some(TokenAccountKeys { mint: pk(101), owner: pk(111) })),
        liquidation_token_reserve_ata: Some(Some(TokenAccountKeys { mint: pk(102), owner: pk(112) })),
        price_validator: Some(Keyed { key: pv_key, account: OraclePriceValidator { bump: pv_bump, address: pk(60) } }),
        temp_price_account: temp_prices(vec![
            VerifiedPriceData { token_id: 1, normalized_price_18_decimals: ONE },
            VerifiedPriceData { token_id: 2, normalized_price_18_decimals: 2 * ONE },
        ]),
        lending_stats: stats(),
        repayment_sub_market: Some(keyed_sub_market(1, owner, 0, 5000, 1000)),
        liquidation_sub_market: Some(keyed_sub_market(2, owner, 0, 5000, 0)),
        liquidati_repayment_tab_account: Some(keyed_tab(1, owner, 0, liquidati, 0, 1000)),
        liquidati_liquidation_tab_account: Some(keyed_tab(2, owner, 0, liquidati, 1000, 0)),
        liquidati_repayment_monthly_statement_account: Some(keyed_statement(1, owner, 0, liquidati)),
        liquidati_liquidation_monthly_statement_account: Some(keyed_statement(2, owner, 0, liquidati)),
        oracle_account: Some(pk(60)),
    }
}

#[test]
fn a_liquidation_between_two_tokens_prices_the_collateral() {
    let m = SubMarketPair { repayment_sub_market_index: 0, liquidation_sub_market_index: 0 };
    let (c, e) = liquidate_account(cross_ctx(), m, args(true, 0, true), None, Some(pk(9))).unwrap();
    assert_eq!(e, Effects { into_reserve: Some(500), out_of_reserve: Some(267), refund_oracle_fees: true });
    assert_eq!(c.repayment_token_reserve.borrowed_amount, 500);
    assert_eq!(c.repayment_token_reserve.last_lending_activity_type, 3);
    assert_eq!(c.liquidation_token_reserve.deposited_amount, 10_000 - 2 - 267);
    assert_eq!(c.liquidation_token_reserve.uncollected_liquidation_fees_amount, 2);
    assert_eq!(c.liquidation_token_reserve.last_lending_activity_type, 4);
    assert_eq!(c.liquidati_liquidation_tab_account.unwrap().account.deposited_amount, 731);
    assert_eq!(c.liquidati_repayment_tab_account.unwrap().account.borrowed_amount, 500);
    assert_eq!(c.liquidati_lending_account.unwrap().account.total_borrowed_usd_value, 900 * ONE);
    assert_eq!(c.lending_stats.unwrap().account.liquidations, 1);
}

#[test]
fn a_liquidation_between_two_tokens_changes_each_side_alike() {
    let m = SubMarketPair { repayment_sub_market_index: 0, liquidation_sub_market_index: 0 };
    let (c, _) = liquidate_account(cross_ctx(), m, args(true, 0, true), None, Some(pk(9))).unwrap();
    // Repayment side: 500 of debt repaid everywhere.
    assert_eq!(c.repayment_token_reserve.borrowed_amount, 1000 - 500);
    assert_eq!(c.repayment_sub_market.unwrap().account.borrowed_amount, 1000 - 500);
    assert_eq!(
        c.liquidati_repayment_tab_account.unwrap().account.borrowed_amount + c.liquidator_repayment_tab_account.borrowed_amount,
        1000 - 500
    );
    // Liquidation side: the fee and the bonus paid to the wallet leave the deposits everywhere.
    assert_eq!(c.liquidation_token_reserve.deposited_amount, 10_000 - 269);
    assert_eq!(c.liquidation_sub_market.unwrap().account.deposited_amount, 5000 - 269);
    assert_eq!(
        c.liquidati_liquidation_tab_account.unwrap().account.deposited_amount
            + c.liquidator_liquidation_tab_account.deposited_amount,
        1000 - 269
    );
}

#[test]
fn paying_off_an_insolvent_account_lowers_its_debt_value() {
    let mut ctx = cross_ctx();
    if let Some(k) = &mut ctx.liquidati_lending_account {
        k.account.total_borrowed_usd_value = 1100 * ONE;
    }
    let m = SubMarketPair { repayment_sub_market_index: 0, liquidation_sub_market_index: 0 };
    let mut a = args(true, 0, true);
    a.paying_off_insolvent_account = true;
    let (c, _) = liquidate_account(ctx, m, a, None, Some(pk(9))).unwrap();
    assert_eq!(c.liquidati_repayment_tab_account.unwrap().account.borrowed_amount, 0);
    assert_eq!(c.liquidati_lending_account.unwrap().account.total_borrowed_usd_value, 100 * ONE);
}

#[test]
fn a_liquidation_between_two_tokens_checks_its_accounts() {
    let m = SubMarketPair { repayment_sub_market_index: 0, liquidation_sub_market_index: 0 };
    let mut ctx = cross_ctx();
    ctx.liquidati_lending_account = None;
    assert_eq!(liquidate_account(ctx, m, args(true, 0, true), None, Some(pk(9))).err(),
        Some(LendingError::MissingRemainingAccount));
    let mut ctx = cross_ctx();
    ctx.liquidati_account_owner = pk(4);
    assert_eq!(liquidate_account(ctx, m, args(true, 0, true), None, Some(pk(9))).err(),
        Some(LendingError::UnexpectedLendingUserAccount));
    let mut ctx = cross_ctx();
    ctx.liquidation_token_reserve_ata = Some(Some(TokenAccountKeys { mint: pk(101), owner: pk(112) }));
    assert_eq!(liquidate_account(ctx, m, args(true, 0, true), None, Some(pk(9))).err(),
        Some(LendingError::InvalidTokenAccountMint));
    let mut ctx = cross_ctx();
    ctx.repayment_token_reserve_ata = Some(None);
    assert_eq!(liquidate_account(ctx, m, args(true, 0, true), None, Some(pk(9))).err(),
        Some(LendingError::InvalidTokenAccount));
    let mut ctx = cross_ctx();
    ctx.price_validator.as_mut().unwrap().key = pk(5);
    assert_eq!(liquidate_account(ctx, m, args(true, 0, true), None, Some(pk(9))).err(),
        Some(LendingError::UnexpectedOraclePriceValidatorAccount));
    let mut ctx = cross_ctx();
    ctx.temp_price_account.as_mut().unwrap().account.data.pop();
    assert_eq!(liquidate_account(ctx, m, args(true, 0, true), None, Some(pk(9))).err(),
        Some(LendingError::OraclePriceNotFound));
}
