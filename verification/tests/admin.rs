use lending_protocol::admin::{
    add_token_reserve, close_temp_oracle_price_data, create_new_monthly_statement, create_sub_market,
    create_temp_oracle_price_data, edit_lending_user_account_name, edit_sub_market, initialize_lending_protocol,
    pass_on_lending_protocol_ceo, pass_on_liquidation_treasurer, pass_on_solvency_treasurer,
    set_oracle_price_validator, update_current_statement_month_and_year, update_max_tab_amount,
    update_token_reserve, InitialAddresses, InitializeLendingProtocol,
};
use lending_protocol::errors::LendingError;
use lending_protocol::structs::{
    LendingProtocol, LendingProtocolCEO, LendingUserAccount, LendingUserMonthlyStatementAccount, LendingUserStats,
    LendingUserTabAccount, LiquidationTreasurer, OraclePriceValidator, PriceDataPayload, Pubkey, SolvencyTreasurer,
    SubMarket, SubMarketOwnerLookUpTable, SubMarketStats, TempOraclePriceAccount, TokenReserve, TokenReserveStats,
    VerifiedPriceData,
};

const ONE: u128 = 1_000_000_000_000_000_000;

fn pk(n: u8) -> Pubkey {
    Pubkey { bytes: [n; 32] }
}

fn initial() -> InitialAddresses {
    InitialAddresses { ceo: pk(1), solvency_treasurer: pk(2), liquidation_treasurer: pk(3), price_oracle_validator: pk(4) }
}

fn init_ctx(signer: Pubkey) -> InitializeLendingProtocol {
    InitializeLendingProtocol {
        signer,
        look_up_table_address: pk(9),
        ceo: Default::default(),
        solvency_treasurer: Default::default(),
        liquidation_treasurer: Default::default(),
        price_validator: Default::default(),
        lending_protocol: Default::default(),
        lending_stats: Default::default(),
        price_validator_bump: 7,
        lending_stats_bump: 8,
    }
}

#[test]
fn only_the_first_ceo_initializes_the_protocol() {
    let c = initialize_lending_protocol(init_ctx(pk(1)), initial(), 6, 2025).unwrap();
    assert_eq!(c.ceo.address.bytes, [1; 32]);
    assert_eq!(c.solvency_treasurer.address.bytes, [2; 32]);
    assert_eq!(c.liquidation_treasurer.address.bytes, [3; 32]);
    assert_eq!(c.price_validator.address.bytes, [4; 32]);
    assert_eq!(c.price_validator.bump, 7);
    assert_eq!(c.lending_protocol.current_statement_month, 6);
    assert_eq!(c.lending_protocol.current_statement_year, 2025);
    assert_eq!(c.lending_protocol.max_tabs_per_lending_account, 10);
    assert_eq!(c.lending_protocol.look_up_table_address.bytes, [9; 32]);
    assert_eq!(c.lending_stats.bump, 8);
    assert_eq!(initialize_lending_protocol(init_ctx(pk(5)), initial(), 6, 2025).err(), Some(LendingError::NotCEO));
}

#[test]
fn only_the_holder_passes_on_a_role() {
    let mut ceo = LendingProtocolCEO { address: pk(1) };
    assert_eq!(pass_on_lending_protocol_ceo(&mut ceo, pk(2), pk(3)), Err(LendingError::NotCEO));
    assert_eq!(ceo.address.bytes, [1; 32]);
    assert_eq!(pass_on_lending_protocol_ceo(&mut ceo, pk(1), pk(3)), Ok(()));
    assert_eq!(ceo.address.bytes, [3; 32]);
    assert_eq!(pass_on_lending_protocol_ceo(&mut ceo, pk(1), pk(4)), Err(LendingError::NotCEO));

    let mut t = SolvencyTreasurer { address: pk(1) };
    assert_eq!(pass_on_solvency_treasurer(&mut t, pk(2), pk(3)), Err(LendingError::NotSolvencyTreasurer));
    assert_eq!(pass_on_solvency_treasurer(&mut t, pk(1), pk(3)), Ok(()));
    assert_eq!(t.address.bytes, [3; 32]);

    let mut t = LiquidationTreasurer { address: pk(1) };
    assert_eq!(pass_on_liquidation_treasurer(&mut t, pk(2), pk(3)), Err(LendingError::NotLiquidationTreasurer));
    assert_eq!(pass_on_liquidation_treasurer(&mut t, pk(1), pk(3)), Ok(()));
    assert_eq!(t.address.bytes, [3; 32]);
}

#[test]
fn only_the_ceo_sets_the_oracle_and_the_protocol() {
    let ceo = LendingProtocolCEO { address: pk(1) };
    let mut v = OraclePriceValidator { bump: 5, address: pk(4) };
    assert_eq!(set_oracle_price_validator(&ceo, &mut v, pk(2), pk(6)), Err(LendingError::NotCEO));
    assert_eq!(set_oracle_price_validator(&ceo, &mut v, pk(1), pk(6)), Ok(()));
    assert_eq!((v.bump, v.address.bytes), (5, [6; 32]));

    let mut lp = LendingProtocol { max_tabs_per_lending_account: 10, ..Default::default() };
    assert_eq!(update_current_statement_month_and_year(&ceo, &mut lp, pk(2), 7, 2026), Err(LendingError::NotCEO));
    assert_eq!(update_current_statement_month_and_year(&ceo, &mut lp, pk(1), 7, 2026), Ok(()));
    assert_eq!((lp.current_statement_month, lp.current_statement_year), (7, 2026));
    assert_eq!(update_max_tab_amount(&ceo, &mut lp, pk(2), 3), Err(LendingError::NotCEO));
    assert_eq!(update_max_tab_amount(&ceo, &mut lp, pk(1), 3), Ok(()));
    assert_eq!(lp.max_tabs_per_lending_account, 3);
}

#[test]
fn only_the_price_oracle_writes_prices() {
    let v = OraclePriceValidator { bump: 5, address: pk(4) };
    let payload = PriceDataPayload { data: vec![VerifiedPriceData { token_id: 1, normalized_price_18_decimals: 9 }], slot: 33 };
    let mut temp = TempOraclePriceAccount::default();
    assert_eq!(create_temp_oracle_price_data(&v, &mut temp, pk(1), 2, payload.clone()), Err(LendingError::NotPriceOracle));
    assert!(temp.data.is_empty());
    assert_eq!(create_temp_oracle_price_data(&v, &mut temp, pk(4), 2, payload), Ok(()));
    assert_eq!((temp.bump, temp.slot, temp.data.len()), (2, 33, 1));
    assert_eq!(close_temp_oracle_price_data(&v, Some(pk(4))), Ok(()));
    assert_eq!(close_temp_oracle_price_data(&v, Some(pk(5))), Err(LendingError::PriceOracleKeyMisMatched));
    assert_eq!(close_temp_oracle_price_data(&v, None), Err(LendingError::MissingRemainingAccount));
}

#[test]
fn a_token_reserve_is_added_with_the_next_token_id() {
    let ceo = LendingProtocolCEO { address: pk(1) };
    let mut stats = TokenReserveStats { token_reserve_count: 2, token_reserves_updated_count: 0 };
    let mut tr = TokenReserve::default();
    assert_eq!(add_token_reserve(&ceo, pk(1), &mut stats, &mut tr, 9, pk(30), 6, 500, false, 1000, 400), Ok(()));
    assert_eq!(stats.token_reserve_count, 3);
    assert_eq!(tr.token_id, 3);
    assert_eq!(tr.borrow_apy, 500);
    assert_eq!(tr.base_borrow_apy, 500);
    assert_eq!(tr.supply_interest_change_index, ONE);
    assert_eq!(tr.borrow_interest_change_index, ONE);
    assert_eq!(tr.token_decimal_amount, 6);
    assert_eq!(tr.bump, 9);
    let mut tr = TokenReserve::default();
    assert_eq!(
        add_token_reserve(&ceo, pk(2), &mut stats, &mut tr, 9, pk(30), 6, 500, false, 1000, 400),
        Err(LendingError::NotCEO)
    );
    assert_eq!(
        add_token_reserve(&ceo, pk(1), &mut stats, &mut tr, 9, pk(30), 6, 501, false, 1000, 400),
        Err(LendingError::InvalidBaseBorrowAPY)
    );
    assert_eq!(
        add_token_reserve(&ceo, pk(1), &mut stats, &mut tr, 9, pk(30), 6, 500, false, 1000, 401),
        Err(LendingError::InvalidSolvencyInsuranceFeeRate)
    );
    assert_eq!(stats.token_reserve_count, 3);
    assert_eq!(tr.token_id, 0);
}

#[test]
fn a_token_reserve_update_accounts_interest_before_a_new_rate() {
    let ceo = LendingProtocolCEO { address: pk(1) };
    let mut stats = TokenReserveStats::default();
    let mut tr = TokenReserve {
        token_id: 1,
        base_borrow_apy: 300,
        deposited_amount: 1000,
        borrowed_amount: 500,
        supply_apy: 500,
        borrow_apy: 1000,
        supply_interest_change_index: ONE,
        borrow_interest_change_index: ONE,
        ..Default::default()
    };
    assert_eq!(update_token_reserve(&ceo, pk(1), &mut stats, &mut tr, 400, false, 77, 100, 31_556_952), Ok(()));
    assert_eq!(tr.supply_interest_change_index, 1_051_271_093_749_999_999);
    assert_eq!(tr.borrow_interest_change_index, 1_105_170_833_333_333_332);
    assert_eq!(tr.base_borrow_apy, 400);
    assert_eq!(tr.global_limit, 77);
    assert_eq!(tr.solvency_insurance_fee_rate, 100);
    assert_eq!(tr.utilization_rate, 5000);
    assert_eq!(tr.borrow_apy, 685);
    assert_eq!(stats.token_reserves_updated_count, 1);

    let mut same = TokenReserve { base_borrow_apy: 400, ..tr };
    same.supply_interest_change_index = ONE;
    assert_eq!(update_token_reserve(&ceo, pk(1), &mut stats, &mut same, 400, false, 5, 0, 99_999_999), Ok(()));
    assert_eq!(same.supply_interest_change_index, ONE);
    assert_eq!(same.global_limit, 5);
    assert_eq!(update_token_reserve(&ceo, pk(3), &mut stats, &mut same, 400, false, 5, 0, 0), Err(LendingError::NotCEO));
}

#[test]
fn a_sub_market_is_created_for_its_owner() {
    let tr = TokenReserve { token_id: 4, ..Default::default() };
    let mut sm = SubMarket::default();
    let mut stats = SubMarketStats { sub_market_creation_count: 10, sub_market_edit_count: 0 };
    let mut lut = SubMarketOwnerLookUpTable::default();
    assert_eq!(
        create_sub_market(pk(1), pk(2), &tr, &mut sm, 3, &mut stats, &mut lut, 7, 10_001, Some(pk(9))),
        Err(LendingError::InvalidSubMarketFeeRate)
    );
    assert_eq!(
        create_sub_market(pk(1), pk(2), &tr, &mut sm, 3, &mut stats, &mut lut, 7, 10_000, None),
        Err(LendingError::MissingSubMarketLookUpTable)
    );
    assert_eq!(stats.sub_market_creation_count, 10);
    assert_eq!(create_sub_market(pk(1), pk(2), &tr, &mut sm, 3, &mut stats, &mut lut, 7, 1500, Some(pk(9))), Ok(()));
    assert_eq!(sm.id, 11);
    assert_eq!(sm.token_id, 4);
    assert_eq!(sm.sub_market_index, 7);
    assert_eq!(sm.owner.bytes, [1; 32]);
    assert_eq!(sm.fee_collector_address.bytes, [2; 32]);
    assert_eq!(sm.fee_on_interest_earned_rate, 1500);
    assert!(lut.look_up_table_added);
    assert_eq!(lut.look_up_table_address.bytes, [9; 32]);
    let mut sm2 = SubMarket::default();
    assert_eq!(create_sub_market(pk(1), pk(2), &tr, &mut sm2, 3, &mut stats, &mut lut, 8, 0, None), Ok(()));
    assert_eq!(sm2.id, 12);
    assert_eq!(lut.look_up_table_address.bytes, [9; 32]);

    assert_eq!(edit_sub_market(&mut sm, &mut stats, pk(5), 10_001), Err(LendingError::InvalidSubMarketFeeRate));
    assert_eq!(edit_sub_market(&mut sm, &mut stats, pk(5), 0), Ok(()));
    assert_eq!(sm.fee_collector_address.bytes, [5; 32]);
    assert_eq!(sm.fee_on_interest_earned_rate, 0);
    assert_eq!(stats.sub_market_edit_count, 1);
}

#[test]
fn an_account_name_is_at_most_25_characters() {
    let mut ua = LendingUserAccount { account_name: "Old".to_string(), ..Default::default() };
    let mut stats = LendingUserStats::default();
    assert_eq!(
        edit_lending_user_account_name(&mut ua, &mut stats, "n".repeat(26)),
        Err(LendingError::LendingUserAccountNameTooLong)
    );
    assert_eq!(ua.account_name, "Old");
    assert_eq!(edit_lending_user_account_name(&mut ua, &mut stats, "n".repeat(25)), Ok(()));
    assert_eq!(ua.account_name, "n".repeat(25));
    assert_eq!(stats.name_change_count, 1);
    assert_eq!(edit_lending_user_account_name(&mut ua, &mut stats, "é".repeat(13)), Ok(()));
    assert_eq!(ua.account_name, "é".repeat(13));
    assert_eq!(stats.name_change_count, 2);
}

#[test]
fn a_new_statement_starts_from_the_tab() {
    let tab = LendingUserTabAccount { deposited_amount: 40, borrowed_amount: 15, ..Default::default() };
    let lp = LendingProtocol { current_statement_month: 11, current_statement_year: 2030, ..Default::default() };
    let mut st = LendingUserMonthlyStatementAccount::default();
    assert_eq!(create_new_monthly_statement(&mut st, &tab, &lp, 3, 2, pk(5), 1, pk(6), 0), Ok(()));
    assert!(st.monthly_statement_account_added);
    assert_eq!((st.statement_month, st.statement_year), (11, 2030));
    assert_eq!((st.snap_shot_balance_amount, st.snap_shot_debt_amount), (40, 15));
    assert_eq!((st.token_id, st.sub_market_index, st.bump), (2, 1, 3));
}
