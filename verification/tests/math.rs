use lending_protocol::errors::LendingError;
use lending_protocol::interest::update_token_reserve_supply_and_borrow_interest_change_index;
use lending_protocol::oracle::{check_token_price_staleness, get_verified_token_price, token_conversion_number};
use lending_protocol::rates::update_token_reserve_rates;
use lending_protocol::structs::{
    LendingUserMonthlyStatementAccount, LendingUserTabAccount, SubMarket, TokenReserve, VerifiedPriceData,
};
use lending_protocol::user_interest::{update_user_previous_interest_accrued, update_user_previous_interest_earned};

const ONE: u128 = 1_000_000_000_000_000_000;
const YEAR: u64 = 31_556_952;

fn reserve(deposited: u128, borrowed: u128, base: u16, fixed: bool) -> TokenReserve {
    TokenReserve {
        deposited_amount: deposited,
        borrowed_amount: borrowed,
        base_borrow_apy: base,
        use_fixed_borrow_apy: fixed,
        supply_interest_change_index: ONE,
        borrow_interest_change_index: ONE,
        ..Default::default()
    }
}

#[test]
fn rates_below_the_kink() {
    let mut tr = reserve(1000, 500, 300, false);
    update_token_reserve_rates(&mut tr);
    assert_eq!(tr.utilization_rate, 5000);
    assert_eq!(tr.borrow_apy, 514);
    assert_eq!(tr.supply_apy, 257);
}

#[test]
fn rates_above_the_kink() {
    let mut tr = reserve(1000, 900, 300, false);
    update_token_reserve_rates(&mut tr);
    assert_eq!(tr.utilization_rate, 9000);
    assert_eq!(tr.borrow_apy, 2866);
    assert_eq!(tr.supply_apy, 2579);
}

#[test]
fn rates_with_a_fixed_borrow_apy() {
    let mut tr = reserve(1000, 500, 300, true);
    update_token_reserve_rates(&mut tr);
    assert_eq!(tr.utilization_rate, 5000);
    assert_eq!(tr.borrow_apy, 300);
    assert_eq!(tr.supply_apy, 150);
}

#[test]
fn rates_of_an_idle_reserve() {
    let mut tr = reserve(1000, 0, 300, false);
    tr.supply_apy = 77;
    tr.utilization_rate = 12;
    update_token_reserve_rates(&mut tr);
    assert_eq!(tr.utilization_rate, 0);
    assert_eq!(tr.supply_apy, 0);
    assert_eq!(tr.borrow_apy, 300);
}

#[test]
fn supply_rate_stays_within_borrow_rate() {
    for borrowed in [1u128, 250, 699, 700, 701, 999, 1000] {
        let mut tr = reserve(1000, borrowed, 500, false);
        update_token_reserve_rates(&mut tr);
        assert!(tr.supply_apy <= tr.borrow_apy);
    }
}

#[test]
fn indexes_grow_over_a_year() {
    let mut tr = reserve(1000, 500, 500, false);
    tr.supply_apy = 500;
    tr.borrow_apy = 1000;
    tr.last_lending_activity_time_stamp = 100;
    let r = update_token_reserve_supply_and_borrow_interest_change_index(&mut tr, 100 + YEAR, None);
    assert_eq!(r, Ok(()));
    assert_eq!(tr.supply_interest_change_index, 1_051_271_093_749_999_999);
    assert_eq!(tr.borrow_interest_change_index, 1_105_170_833_333_333_332);
    assert_eq!(tr.last_lending_activity_time_stamp, 100 + YEAR);
}

#[test]
fn indexes_grow_over_a_day_and_record_the_slot() {
    let mut tr = reserve(1000, 500, 500, false);
    tr.supply_apy = 500;
    tr.borrow_apy = 500;
    tr.supply_interest_change_index = 2 * ONE;
    let r = update_token_reserve_supply_and_borrow_interest_change_index(&mut tr, 86_400, Some(9));
    assert_eq!(r, Ok(()));
    assert_eq!(tr.supply_interest_change_index, 2_000_273_809_441_890_978);
    assert_eq!(tr.borrow_interest_change_index, 1_000_136_904_720_945_489);
    assert_eq!(tr.last_health_update_clock_slot, 9);
}

#[test]
fn indexes_stay_when_nothing_is_borrowed() {
    let mut tr = reserve(1000, 0, 500, false);
    tr.supply_apy = 500;
    tr.borrow_apy = 500;
    let r = update_token_reserve_supply_and_borrow_interest_change_index(&mut tr, YEAR, None);
    assert_eq!(r, Ok(()));
    assert_eq!(tr.supply_interest_change_index, ONE);
    assert_eq!(tr.borrow_interest_change_index, ONE);
    assert_eq!(tr.last_lending_activity_time_stamp, YEAR);
}

#[test]
fn indexes_stay_when_no_time_passed() {
    let mut tr = reserve(1000, 500, 500, false);
    tr.supply_apy = 900;
    tr.borrow_apy = 1500;
    tr.last_lending_activity_time_stamp = 55;
    let r = update_token_reserve_supply_and_borrow_interest_change_index(&mut tr, 55, None);
    assert_eq!(r, Ok(()));
    assert_eq!(tr.supply_interest_change_index, ONE);
    assert_eq!(tr.borrow_interest_change_index, ONE);
}

#[test]
fn earned_interest_is_split_into_user_interest_and_fees() {
    let mut tr = reserve(5000, 0, 300, false);
    tr.supply_interest_change_index = 1_100_000_000_000_000_000;
    tr.solvency_insurance_fee_rate = 400;
    let mut sm = SubMarket { fee_on_interest_earned_rate: 1000, deposited_amount: 1000, ..Default::default() };
    let mut tab = LendingUserTabAccount { deposited_amount: 1000, supply_interest_change_index: ONE, ..Default::default() };
    let mut st = LendingUserMonthlyStatementAccount::default();
    let r = update_user_previous_interest_earned(&mut tr, &mut sm, &mut tab, &mut st);
    assert_eq!(r, Ok(()));
    assert_eq!(tab.deposited_amount, 1086);
    assert_eq!(tab.interest_earned_amount, 86);
    assert_eq!(tab.fees_generated_amount, 14);
    assert_eq!(tr.deposited_amount, 5086);
    assert_eq!(tr.interest_earned_amount, 86);
    assert_eq!(tr.uncollected_solvency_insurance_fees_amount, 4);
    assert_eq!(sm.deposited_amount, 1086);
    assert_eq!(sm.sub_market_fees_generated_amount, 10);
    assert_eq!(sm.uncollected_sub_market_fees_amount, 10);
    assert_eq!(sm.solvency_insurance_fees_generated_amount, 4);
    assert_eq!(st.monthly_interest_earned_amount, 86);
    assert_eq!(st.fees_generated_amount, 14);
    assert_eq!(st.snap_shot_balance_amount, 1086);
}

#[test]
fn interest_is_earned_on_indexes_past_64_bits() {
    let mut tr = reserve(5000, 0, 300, false);
    tr.supply_interest_change_index = 22 * ONE;
    let mut sm = SubMarket { deposited_amount: 1000, ..Default::default() };
    let mut tab = LendingUserTabAccount { deposited_amount: 1000, supply_interest_change_index: 20 * ONE, ..Default::default() };
    let mut st = LendingUserMonthlyStatementAccount::default();
    let r = update_user_previous_interest_earned(&mut tr, &mut sm, &mut tab, &mut st);
    assert_eq!(r, Ok(()));
    assert_eq!(tab.deposited_amount, 1100);
    assert_eq!(tab.interest_earned_amount, 100);
}

#[test]
fn full_fees_leave_the_user_nothing() {
    let mut tr = reserve(5000, 0, 300, false);
    tr.supply_interest_change_index = 1_100_000_000_000_000_000;
    tr.solvency_insurance_fee_rate = 400;
    let mut sm = SubMarket { fee_on_interest_earned_rate: 9600, ..Default::default() };
    let mut tab = LendingUserTabAccount { deposited_amount: 1000, supply_interest_change_index: ONE, ..Default::default() };
    let mut st = LendingUserMonthlyStatementAccount::default();
    let r = update_user_previous_interest_earned(&mut tr, &mut sm, &mut tab, &mut st);
    assert_eq!(r, Ok(()));
    assert_eq!(tab.deposited_amount, 1000);
    assert_eq!(tab.interest_earned_amount, 0);
    assert_eq!(tab.fees_generated_amount, 100);
    assert_eq!(sm.uncollected_sub_market_fees_amount, 96);
    assert_eq!(tr.uncollected_solvency_insurance_fees_amount, 4);
}

#[test]
fn an_empty_tab_earns_nothing() {
    let mut tr = reserve(5000, 0, 300, false);
    tr.supply_interest_change_index = 2 * ONE;
    let mut sm = SubMarket::default();
    let mut tab = LendingUserTabAccount { supply_interest_change_index: ONE, ..Default::default() };
    let mut st = LendingUserMonthlyStatementAccount::default();
    let r = update_user_previous_interest_earned(&mut tr, &mut sm, &mut tab, &mut st);
    assert_eq!(r, Ok(()));
    assert_eq!(tab.deposited_amount, 0);
    assert_eq!(tr.deposited_amount, 5000);
}

#[test]
fn accrued_interest_is_added_to_the_debt_rounded_up() {
    let mut tr = reserve(5000, 2000, 300, false);
    tr.borrow_interest_change_index = 1_050_000_000_000_000_001;
    let mut sm = SubMarket { borrowed_amount: 1000, ..Default::default() };
    let mut tab = LendingUserTabAccount { borrowed_amount: 1000, borrow_interest_change_index: ONE, ..Default::default() };
    let mut st = LendingUserMonthlyStatementAccount::default();
    let r = update_user_previous_interest_accrued(&mut tr, &mut sm, &mut tab, &mut st);
    assert_eq!(r, Ok(()));
    assert_eq!(tab.borrowed_amount, 1051);
    assert_eq!(tab.interest_accrued_amount, 51);
    assert_eq!(tr.borrowed_amount, 2051);
    assert_eq!(sm.borrowed_amount, 1051);
    assert_eq!(st.snap_shot_debt_amount, 1051);
    assert_eq!(st.monthly_interest_accrued_amount, 51);
}

#[test]
fn a_zero_user_index_cannot_be_settled() {
    let mut tr = reserve(5000, 0, 300, false);
    let mut sm = SubMarket::default();
    let mut tab = LendingUserTabAccount { deposited_amount: 10, supply_interest_change_index: 0, ..Default::default() };
    let mut st = LendingUserMonthlyStatementAccount::default();
    let r = update_user_previous_interest_earned(&mut tr, &mut sm, &mut tab, &mut st);
    assert_eq!(r, Err(LendingError::ArithmeticOverflow));
}

#[test]
fn prices_are_fresh_for_75_slots() {
    assert_eq!(check_token_price_staleness(100, 175), Ok(()));
    assert_eq!(check_token_price_staleness(100, 100), Ok(()));
    assert_eq!(check_token_price_staleness(100, 176), Err(LendingError::OracleDataStale));
}

#[test]
fn the_first_price_of_a_token_counts() {
    let prices = vec![
        VerifiedPriceData { token_id: 3, normalized_price_18_decimals: 30 },
        VerifiedPriceData { token_id: 7, normalized_price_18_decimals: 70 },
        VerifiedPriceData { token_id: 7, normalized_price_18_decimals: 71 },
    ];
    assert_eq!(get_verified_token_price(&prices, 7), Ok(70));
    assert_eq!(get_verified_token_price(&prices, 3), Ok(30));
    assert_eq!(get_verified_token_price(&prices, 9), Err(LendingError::OraclePriceNotFound));
    assert_eq!(get_verified_token_price(&[], 3), Err(LendingError::OraclePriceNotFound));
}

#[test]
fn conversion_numbers_are_powers_of_ten() {
    assert_eq!(token_conversion_number(0), 1);
    assert_eq!(token_conversion_number(6), 1_000_000);
    assert_eq!(token_conversion_number(9), 1_000_000_000);
    assert_eq!(token_conversion_number(38), 10u128.pow(38));
}
