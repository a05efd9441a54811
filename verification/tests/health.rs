use lending_protocol::errors::LendingError;
use lending_protocol::health::{refresh_user_health_chunk_and_token_reserves, RefreshSet, RefreshUserHealthChunkAndTokenReserves};
use lending_protocol::liquidation::Keyed;
use lending_protocol::structs::{
    LendingProtocol, LendingUserAccount, LendingUserMonthlyStatementAccount, LendingUserTabAccount,
    OraclePriceValidator, Pubkey, SubMarket, TempOraclePriceAccount, TokenReserve, VerifiedPriceData,
};

const ONE: u128 = 1_000_000_000_000_000_000;

fn pk(n: u8) -> Pubkey {
    Pubkey { bytes: [n; 32] }
}

fn program_id() -> Pubkey {
    pk(200)
}

fn find_pda(seeds: &[&[u8]], program: Pubkey) -> (Pubkey, u8) {
    let pid = anchor_lang::prelude::Pubkey::new_from_array(program.bytes);
    for bump in (0..=255u8).rev() {
        let b = [bump];
        let mut all: Vec<&[u8]> = seeds.to_vec();
        all.push(&b);
        if let Ok(k) = anchor_lang::prelude::Pubkey::create_program_address(&all, &pid) {
            return (Pubkey { bytes: k.to_bytes() }, bump);
        }
    }
    panic!("no program address");
}

/// A reserve of token `token_id` at its address.
fn reserve(token_id: u8, decimals: u8) -> Keyed<TokenReserve> {
    let mint = pk(100 + token_id);
    let (key, bump) = find_pda(&[b"tokenReserve", &mint.bytes], program_id());
    Keyed {
        key,
        account: TokenReserve {
            bump,
            token_id,
            token_mint_address: mint,
            token_decimal_amount: decimals,
            base_borrow_apy: 300,
            deposited_amount: 1_000_000_000,
            supply_interest_change_index: ONE,
            borrow_interest_change_index: ONE,
            ..Default::default()
        },
    }
}

/// A user's tab, sub market and statement for token `token_id`, at their addresses.
fn set(token_id: u8, tab_index: u8, deposited: u64, borrowed: u64) -> RefreshSet {
    let owner = pk(1);
    let sm_owner = pk(2);
    let index: u16 = 0;
    let year: u16 = 2025;
    let (tab_key, tab_bump) = find_pda(
        &[b"lendingUserTabAccount", &[token_id], &sm_owner.bytes, &index.to_le_bytes(), &owner.bytes, &[0]],
        program_id(),
    );
    let (sm_key, sm_bump) =
        find_pda(&[b"subMarket", &[token_id], &sm_owner.bytes, &index.to_le_bytes()], program_id());
    let (st_key, st_bump) = find_pda(
        &[
            b"userMonthlyStatementAccount",
            &[6],
            &year.to_le_bytes(),
            &[token_id],
            &sm_owner.bytes,
            &index.to_le_bytes(),
            &owner.bytes,
            &[0],
        ],
        program_id(),
    );
    RefreshSet {
        tab: Some(Keyed {
            key: tab_key,
            account: LendingUserTabAccount {
                bump: tab_bump,
                token_id,
                sub_market_owner_address: sm_owner,
                sub_market_index: index,
                user_tab_account_index: tab_index,
                user_tab_account_added: true,
                deposited_amount: deposited,
                borrowed_amount: borrowed,
                supply_interest_change_index: ONE,
                borrow_interest_change_index: ONE,
                ..Default::default()
            },
        }),
        sub_market: Some(Keyed {
            key: sm_key,
            account: SubMarket {
                bump: sm_bump,
                token_id,
                supply_interest_change_index: ONE,
                borrow_interest_change_index: ONE,
                ..Default::default()
            },
        }),
        statement: Some(Keyed {
            key: st_key,
            account: LendingUserMonthlyStatementAccount {
                bump: st_bump,
                monthly_statement_account_added: true,
                ..Default::default()
            },
        }),
    }
}

fn ctx(sets: Vec<RefreshSet>, tab_count: u8) -> RefreshUserHealthChunkAndTokenReserves {
    let signer = pk(1);
    let (temp_key, temp_bump) = find_pda(&[b"oraclePriceData", &signer.bytes], program_id());
    RefreshUserHealthChunkAndTokenReserves {
        program_id: program_id(),
        signer,
        lending_user_owner: pk(1),
        lending_protocol: LendingProtocol {
            current_statement_month: 6,
            current_statement_year: 2025,
            max_tabs_per_lending_account: 10,
            look_up_table_address: pk(9),
        },
        price_validator: OraclePriceValidator { bump: 1, address: pk(60) },
        lending_user_account: LendingUserAccount {
            lending_user_account_added: true,
            tab_account_count: tab_count,
            total_deposited_usd_value: 5,
            total_borrowed_usd_value: 6,
            last_health_update_clock_slot: 10,
            refresh_clock_slot: 10,
            temp_deposit_usd_value: 77,
            next_tab_index_to_refresh: 3,
            ..Default::default()
        },
        time_stamp: 500,
        clock_slot: 150,
        temp_price_account: Some(Keyed {
            key: temp_key,
            account: TempOraclePriceAccount {
                bump: temp_bump,
                data: vec![
                    VerifiedPriceData { token_id: 1, normalized_price_18_decimals: 2 * ONE },
                    VerifiedPriceData { token_id: 2, normalized_price_18_decimals: ONE / 2 },
                ],
                slot: 140,
            },
        }),
        token_reserves: vec![Some(reserve(1, 6)), Some(reserve(2, 0))],
        sets,
        oracle_account: Some(pk(60)),
    }
}

#[test]
fn a_full_refresh_sets_the_health_totals() {
    let c = ctx(vec![set(1, 0, 3_000_000, 0), set(2, 1, 0, 800)], 2);
    let (q, e) = refresh_user_health_chunk_and_token_reserves(c, 0, true).unwrap();
    assert!(e.refund_oracle_fees);
    let ua = &q.lending_user_account;
    assert_eq!(ua.next_tab_index_to_refresh, 2);
    assert_eq!(ua.refresh_clock_slot, 150);
    assert_eq!(ua.total_deposited_usd_value, 6 * ONE);
    assert_eq!(ua.total_borrowed_usd_value, 400 * ONE);
    assert_eq!(ua.last_health_update_clock_slot, 150);
    let tr = q.token_reserves[0].unwrap().account;
    assert_eq!(tr.last_health_update_clock_slot, 150);
    assert_eq!(tr.last_lending_activity_time_stamp, 500);
}

#[test]
fn a_partial_refresh_keeps_the_old_totals() {
    let c = ctx(vec![set(1, 0, 3_000_000, 0)], 2);
    let (q, e) = refresh_user_health_chunk_and_token_reserves(c, 0, false).unwrap();
    assert!(!e.refund_oracle_fees);
    let ua = &q.lending_user_account;
    assert_eq!(ua.next_tab_index_to_refresh, 1);
    assert_eq!(ua.temp_deposit_usd_value, 6 * ONE);
    assert_eq!(ua.total_deposited_usd_value, 5);
    assert_eq!(ua.last_health_update_clock_slot, 10);
}

#[test]
fn chunks_in_one_slot_sum_all_tabs() {
    let c = ctx(vec![set(1, 0, 3_000_000, 0)], 2);
    let (mut q, _) = refresh_user_health_chunk_and_token_reserves(c, 0, false).unwrap();
    assert_eq!(q.lending_user_account.total_deposited_usd_value, 5);
    q.sets = vec![set(2, 1, 0, 800)];
    let (q, _) = refresh_user_health_chunk_and_token_reserves(q, 0, true).unwrap();
    let ua = &q.lending_user_account;
    assert_eq!(ua.next_tab_index_to_refresh, 2);
    assert_eq!(ua.total_deposited_usd_value, 6 * ONE);
    assert_eq!(ua.total_borrowed_usd_value, 400 * ONE);
    assert_eq!(ua.last_health_update_clock_slot, 150);
}

#[test]
fn a_current_health_is_left_alone() {
    let mut c = ctx(vec![set(1, 0, 3_000_000, 0)], 1);
    c.lending_user_account.last_health_update_clock_slot = 150;
    c.temp_price_account = None;
    let (q, e) = refresh_user_health_chunk_and_token_reserves(c, 0, true).unwrap();
    assert!(!e.refund_oracle_fees);
    assert_eq!(q.lending_user_account.total_deposited_usd_value, 5);
    assert_eq!(q.lending_user_account.next_tab_index_to_refresh, 3);
}

#[test]
fn tabs_are_refreshed_in_order() {
    let c = ctx(vec![set(1, 1, 3_000_000, 0)], 2);
    let r = refresh_user_health_chunk_and_token_reserves(c, 0, false);
    assert_eq!(r.err(), Some(LendingError::IncorrectOrderOfTabAccounts));
}

#[test]
fn a_tab_needs_its_reserve_and_its_accounts() {
    let mut c = ctx(vec![set(3, 0, 1, 0)], 1);
    c.token_reserves = vec![Some(reserve(1, 6))];
    let r = refresh_user_health_chunk_and_token_reserves(c, 0, false);
    assert_eq!(r.err(), Some(LendingError::MissingTokenReserveAccountForRefresh));
    let c = ctx(vec![set(1, 0, 1, 0)], 1);
    let r = refresh_user_health_chunk_and_token_reserves(c, 1, false);
    assert_eq!(r.err(), Some(LendingError::UnexpectedTabAccount));
    let mut c = ctx(vec![set(2, 0, 1, 0)], 1);
    c.token_reserves = vec![Some(reserve(1, 6))];
    let r = refresh_user_health_chunk_and_token_reserves(c, 0, false);
    assert_eq!(r.err(), Some(LendingError::MissingTokenReserveAccountForRefresh));
    let mut c = ctx(vec![set(1, 0, 1, 0)], 1);
    c.token_reserves = vec![None];
    let r = refresh_user_health_chunk_and_token_reserves(c, 0, false);
    assert_eq!(r.err(), Some(LendingError::MissingRemainingAccount));
    let mut s = set(1, 0, 1, 0);
    s.statement = None;
    let r = refresh_user_health_chunk_and_token_reserves(ctx(vec![s], 1), 0, false);
    assert_eq!(r.err(), Some(LendingError::MissingRemainingAccount));
    let mut c = ctx(vec![set(1, 0, 1, 0)], 1);
    c.temp_price_account.as_mut().unwrap().account.slot = 74;
    let r = refresh_user_health_chunk_and_token_reserves(c, 0, false);
    assert_eq!(r.err(), Some(LendingError::OracleDataStale));
    let mut c = ctx(vec![set(1, 0, 1, 0)], 1);
    c.oracle_account = None;
    let r = refresh_user_health_chunk_and_token_reserves(c, 0, true);
    assert_eq!(r.err(), Some(LendingError::MissingRemainingAccount));
}
