use lending_protocol::errors::LendingError;
use lending_protocol::fees::{
    claim_liquidation_fees, claim_solvency_insurance_fees, claim_sub_market_fees,
    claim_sub_market_fees_and_deposit_in_different_sub_market, ClaimSolvencyInsuranceFees,
    ClaimSubMarketFees, ClaimSubMarketFeesAndDepositInDifferentSubMarket,
};
use lending_protocol::steps::Effects;
use lending_protocol::structs::{
    LendingProtocol, LendingUserTabAccount, LiquidationTreasurer, Pubkey, SolvencyTreasurer, SubMarket, TokenReserve,
};

const ONE: u128 = 1_000_000_000_000_000_000;

fn pk(n: u8) -> Pubkey {
    Pubkey { bytes: [n; 32] }
}

fn protocol() -> LendingProtocol {
    LendingProtocol {
        current_statement_month: 6,
        current_statement_year: 2025,
        max_tabs_per_lending_account: 10,
        look_up_table_address: pk(9),
    }
}

fn reserve() -> TokenReserve {
    TokenReserve {
        token_id: 1,
        base_borrow_apy: 300,
        deposited_amount: 10_000,
        uncollected_liquidation_fees_amount: 40,
        uncollected_solvency_insurance_fees_amount: 25,
        supply_interest_change_index: ONE,
        borrow_interest_change_index: ONE,
        last_lending_activity_time_stamp: 900,
        ..Default::default()
    }
}

fn sub_market(fees: u128) -> SubMarket {
    SubMarket {
        token_id: 1,
        fee_collector_address: pk(5),
        deposited_amount: 3_000,
        uncollected_sub_market_fees_amount: fees,
        supply_interest_change_index: ONE,
        borrow_interest_change_index: ONE,
        ..Default::default()
    }
}

fn claim_ctx(signer: Pubkey) -> ClaimSubMarketFees {
    ClaimSubMarketFees {
        signer,
        sub_market_owner: pk(2),
        lending_protocol: protocol(),
        lending_stats: Default::default(),
        token_reserve: reserve(),
        sub_market: sub_market(30),
        lending_user_account: Default::default(),
        lending_user_tab_account: Default::default(),
        lending_user_monthly_statement_account: Default::default(),
        lending_user_account_bump: 1,
        lending_user_tab_account_bump: 2,
        lending_user_monthly_statement_account_bump: 3,
        time_stamp: 1_000,
    }
}

#[test]
fn a_fee_collector_claims_its_fees_into_its_tab() {
    let (c, e) = claim_sub_market_fees(claim_ctx(pk(5)), 0, 0, None, Some(pk(9))).unwrap();
    assert_eq!(e, Effects { into_reserve: None, out_of_reserve: None, refund_oracle_fees: false });
    assert_eq!(c.sub_market.uncollected_sub_market_fees_amount, 0);
    assert_eq!(c.sub_market.deposited_amount, 3_030);
    assert_eq!(c.token_reserve.deposited_amount, 10_030);
    assert_eq!(c.lending_user_tab_account.deposited_amount, 30);
    assert_eq!(c.lending_user_monthly_statement_account.monthly_sub_market_fees_collected_amount, 30);
    assert_eq!(c.lending_user_monthly_statement_account.snap_shot_balance_amount, 30);
    assert_eq!(c.lending_user_account.account_name, "Generic Sub Fee Claimer");
    assert_eq!(c.lending_stats.fee_collections, 1);
    assert_eq!(c.token_reserve.last_lending_activity_type, 5);
    assert_eq!(c.token_reserve.last_lending_activity_amount, 30);
    assert_eq!(c.sub_market.last_lending_activity_time_stamp, 1_000);
}

#[test]
fn only_the_fee_collector_claims_sub_market_fees() {
    let r = claim_sub_market_fees(claim_ctx(pk(6)), 0, 0, None, Some(pk(9)));
    assert_eq!(r.err(), Some(LendingError::NotFeeCollector));
}

#[test]
fn settled_interest_fees_are_claimed_too() {
    let mut ctx = claim_ctx(pk(5));
    ctx.sub_market.fee_on_interest_earned_rate = 1000;
    ctx.token_reserve.supply_interest_change_index = 1_100_000_000_000_000_000;
    ctx.lending_user_account.lending_user_account_added = true;
    ctx.lending_user_account.tab_account_count = 1;
    ctx.lending_user_tab_account = LendingUserTabAccount {
        token_id: 1,
        user_tab_account_added: true,
        deposited_amount: 1000,
        supply_interest_change_index: ONE,
        borrow_interest_change_index: ONE,
        ..Default::default()
    };
    ctx.lending_user_monthly_statement_account.monthly_statement_account_added = true;
    let (c, _) = claim_sub_market_fees(ctx, 0, 0, None, None).unwrap();
    assert_eq!(c.lending_user_tab_account.deposited_amount, 1000 + 90 + 40);
    assert_eq!(c.sub_market.uncollected_sub_market_fees_amount, 0);
    assert_eq!(c.lending_user_monthly_statement_account.monthly_sub_market_fees_collected_amount, 40);
}

#[test]
fn the_liquidation_treasurer_claims_liquidation_fees_into_its_tab() {
    let t = LiquidationTreasurer { address: pk(7) };
    let (c, _) = claim_liquidation_fees(claim_ctx(pk(7)), t, 0, 0, None, Some(pk(9))).unwrap();
    assert_eq!(c.token_reserve.uncollected_liquidation_fees_amount, 0);
    assert_eq!(c.token_reserve.deposited_amount, 10_040);
    assert_eq!(c.sub_market.deposited_amount, 3_040);
    assert_eq!(c.sub_market.uncollected_sub_market_fees_amount, 30);
    assert_eq!(c.lending_user_tab_account.deposited_amount, 40);
    assert_eq!(c.lending_user_monthly_statement_account.monthly_liquidation_fees_collected_amount, 40);
    assert_eq!(c.lending_user_account.account_name, "HODL Treasury");
    assert_eq!(c.token_reserve.last_lending_activity_type, 7);
    let r = claim_liquidation_fees(claim_ctx(pk(5)), t, 0, 0, None, Some(pk(9)));
    assert_eq!(r.err(), Some(LendingError::NotLiquidationTreasurer));
}

fn solvency_ctx(signer: Pubkey) -> ClaimSolvencyInsuranceFees {
    ClaimSolvencyInsuranceFees {
        signer,
        sub_market_owner: pk(2),
        solvency_treasurer: SolvencyTreasurer { address: pk(8) },
        lending_protocol: protocol(),
        lending_stats: Default::default(),
        token_reserve: reserve(),
        lending_user_account: Default::default(),
        lending_user_tab_account: Default::default(),
        lending_user_monthly_statement_account: Default::default(),
        lending_user_account_bump: 1,
        lending_user_tab_account_bump: 2,
        lending_user_monthly_statement_account_bump: 3,
        time_stamp: 1_234,
    }
}

#[test]
fn the_solvency_treasurer_takes_solvency_fees_to_its_wallet() {
    let (c, e) = claim_solvency_insurance_fees(solvency_ctx(pk(8)), 0, 0, None, Some(pk(9))).unwrap();
    assert_eq!(e, Effects { into_reserve: None, out_of_reserve: Some(25), refund_oracle_fees: false });
    assert_eq!(c.token_reserve.uncollected_solvency_insurance_fees_amount, 0);
    assert_eq!(c.token_reserve.deposited_amount, 10_000);
    assert_eq!(c.lending_user_monthly_statement_account.monthly_solvency_insurance_fees_collected_amount, 25);
    assert_eq!(c.lending_user_monthly_statement_account.last_lending_activity_time_stamp, 1_234);
    assert_eq!(c.lending_user_account.account_name, "Solvency Treasury");
    assert_eq!(c.lending_stats.fee_collections, 1);
    let r = claim_solvency_insurance_fees(solvency_ctx(pk(5)), 0, 0, None, Some(pk(9)));
    assert_eq!(r.err(), Some(LendingError::NotSolvencyTreasurer));
}

fn move_ctx(destination_owner: Pubkey) -> ClaimSubMarketFeesAndDepositInDifferentSubMarket {
    ClaimSubMarketFeesAndDepositInDifferentSubMarket {
        signer: pk(5),
        initial_sub_market_owner: pk(2),
        destination_sub_market_owner: destination_owner,
        lending_protocol: protocol(),
        lending_stats: Default::default(),
        token_reserve: reserve(),
        initial_sub_market: sub_market(30),
        destination_sub_market: sub_market(0),
        lending_user_account: Default::default(),
        initial_lending_user_tab_account: Default::default(),
        destination_lending_user_tab_account: Default::default(),
        initial_lending_user_monthly_statement_account: Default::default(),
        destination_lending_user_monthly_statement_account: Default::default(),
        lending_user_account_bump: 1,
        initial_lending_user_tab_account_bump: 2,
        destination_lending_user_tab_account_bump: 3,
        initial_lending_user_monthly_statement_account_bump: 4,
        destination_lending_user_monthly_statement_account_bump: 5,
        time_stamp: 1_000,
    }
}

#[test]
fn fees_can_be_deposited_in_another_sub_market() {
    let (c, e) =
        claim_sub_market_fees_and_deposit_in_different_sub_market(move_ctx(pk(3)), 0, 0, 0, None, Some(pk(9)))
            .unwrap();
    assert_eq!(e, Effects { into_reserve: None, out_of_reserve: None, refund_oracle_fees: false });
    assert_eq!(c.initial_sub_market.uncollected_sub_market_fees_amount, 0);
    assert_eq!(c.initial_sub_market.deposited_amount, 3_000);
    assert_eq!(c.destination_sub_market.deposited_amount, 3_030);
    assert_eq!(c.token_reserve.deposited_amount, 10_030);
    assert_eq!(c.destination_lending_user_tab_account.deposited_amount, 30);
    assert_eq!(c.initial_lending_user_tab_account.deposited_amount, 0);
    assert_eq!(c.initial_lending_user_monthly_statement_account.monthly_sub_market_fees_collected_amount, 30);
    assert_eq!(c.initial_lending_user_monthly_statement_account.monthly_withdrawal_amount, 30);
    assert_eq!(c.destination_lending_user_monthly_statement_account.monthly_deposited_amount, 30);
    assert_eq!(c.lending_user_account.tab_account_count, 2);
    assert_eq!(c.destination_sub_market.last_lending_activity_type, 0);
    assert_eq!(c.initial_sub_market.last_lending_activity_type, 5);
    assert_eq!(c.token_reserve.last_lending_activity_type, 5);
}

#[test]
fn fees_cannot_be_moved_into_the_same_sub_market() {
    let r = claim_sub_market_fees_and_deposit_in_different_sub_market(move_ctx(pk(2)), 4, 4, 0, None, Some(pk(9)));
    assert_eq!(r.err(), Some(LendingError::DuplicateSubMarket));
    let r = claim_sub_market_fees_and_deposit_in_different_sub_market(move_ctx(pk(2)), 4, 5, 0, None, Some(pk(9)));
    assert!(r.is_ok());
    let mut ctx = move_ctx(pk(3));
    ctx.signer = pk(6);
    let r = claim_sub_market_fees_and_deposit_in_different_sub_market(ctx, 0, 0, 0, None, Some(pk(9)));
    assert_eq!(r.err(), Some(LendingError::NotFeeCollector));
}
