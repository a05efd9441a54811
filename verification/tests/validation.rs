use lending_protocol::errors::LendingError;
use lending_protocol::structs::{
    LendingStats, LendingUserAccount, LendingUserMonthlyStatementAccount, LendingUserTabAccount, OraclePriceValidator,
    Pubkey, SubMarket, TempOraclePriceAccount, TokenReserve,
};
use lending_protocol::validation::{
    is_temp_price_account_address, validate_and_return_lending_stats_account,
    validate_and_return_lending_user_account, validate_and_return_lending_user_monthly_state_account,
    validate_and_return_lending_user_tab_account, validate_and_return_price_validator_account,
    validate_and_return_sub_market_account, validate_and_return_temp_price_account,
    validate_and_return_token_reserve_account, validate_token_reserve_ata, TokenAccountKeys,
};

fn pk(n: u8) -> Pubkey {
    Pubkey { bytes: [n; 32] }
}

fn program_id() -> Pubkey {
    pk(200)
}

/// The program derived address of `seeds` and its bump, searched from 255 down.
fn find_pda(seeds: &[&[u8]], program: Pubkey) -> (Pubkey, u8) {
    let pid = anchor_lang::prelude::Pubkey::new_from_array(program.bytes);
    for bump in (0..=255u8).rev() {
        let b = [bump];
        let mut all: Vec<&[u8]> = seeds.to_vec();
        all.push(&b);
        if let Ok(k) = anchor_lang::prelude::Pubkey::create_program_address(&all, &pid) {
            return (Pubkey { bytes: k.to_bytes() }, bump);
        }
    }
    panic!("no program address");
}

#[test]
fn lending_stats_account_at_its_address_is_accepted() {
    let (key, bump) = find_pda(&[b"lendingStats"], program_id());
    let stats = LendingStats { bump, deposits: 4, ..Default::default() };
    let r = validate_and_return_lending_stats_account(program_id(), key, stats).unwrap();
    assert_eq!(r.deposits, 4);
    assert_eq!(
        validate_and_return_lending_stats_account(program_id(), pk(5), stats).map(|s| s.deposits),
        Err(LendingError::UnexpectedLendingStatsAccount)
    );
    let wrong_bump = LendingStats { bump: bump.wrapping_add(1), ..stats };
    assert!(validate_and_return_lending_stats_account(program_id(), key, wrong_bump).is_err());
}

#[test]
fn price_validator_account_at_its_address_is_accepted() {
    let (key, bump) = find_pda(&[b"oraclePriceValidator"], program_id());
    let v = OraclePriceValidator { bump, address: pk(77) };
    assert_eq!(validate_and_return_price_validator_account(program_id(), key, v).unwrap().address.bytes, [77; 32]);
    assert_eq!(
        validate_and_return_price_validator_account(pk(1), key, v).map(|v| v.bump),
        Err(LendingError::UnexpectedOraclePriceValidatorAccount)
    );
}

#[test]
fn token_reserve_account_is_checked_against_its_mint() {
    let mint = pk(31);
    let (key, bump) = find_pda(&[b"tokenReserve", &mint.bytes], program_id());
    let tr = TokenReserve { bump, token_mint_address: mint, token_id: 3, ..Default::default() };
    assert_eq!(validate_and_return_token_reserve_account(program_id(), key, tr).unwrap().token_id, 3);
    let other = TokenReserve { token_mint_address: pk(32), ..tr };
    assert_eq!(
        validate_and_return_token_reserve_account(program_id(), key, other).map(|t| t.token_id),
        Err(LendingError::UnexpectedTokenReserveAccount)
    );
}

#[test]
fn sub_market_account_is_checked_against_token_owner_and_index() {
    let owner = pk(8);
    let index: u16 = 258;
    let (key, bump) = find_pda(&[b"subMarket", &[4], &owner.bytes, &index.to_le_bytes()], program_id());
    let sm = SubMarket { bump, fee_on_interest_earned_rate: 123, ..Default::default() };
    let r = validate_and_return_sub_market_account(program_id(), key, sm, 4, owner, index).unwrap();
    assert_eq!(r.fee_on_interest_earned_rate, 123);
    assert_eq!(
        validate_and_return_sub_market_account(program_id(), key, sm, 4, owner, 259).map(|s| s.bump),
        Err(LendingError::UnexpectedSubMarketAccount)
    );
}

#[test]
fn lending_user_account_is_checked_against_owner_and_index() {
    let owner = pk(12);
    let (key, bump) = find_pda(&[b"lendingUserAccount", &owner.bytes, &[2]], program_id());
    let ua = LendingUserAccount { bump, account_name: "Alice".to_string(), ..Default::default() };
    let r = validate_and_return_lending_user_account(program_id(), key, ua.clone(), owner, 2).unwrap();
    assert_eq!(r.account_name, "Alice");
    assert_eq!(
        validate_and_return_lending_user_account(program_id(), key, ua, owner, 3).map(|a| a.bump),
        Err(LendingError::UnexpectedLendingUserAccount)
    );
}

#[test]
fn tab_account_is_checked_against_its_seeds() {
    let sm_owner = pk(8);
    let owner = pk(12);
    let index: u16 = 1;
    let (key, bump) = find_pda(
        &[b"lendingUserTabAccount", &[4], &sm_owner.bytes, &index.to_le_bytes(), &owner.bytes, &[0]],
        program_id(),
    );
    let tab = LendingUserTabAccount { bump, deposited_amount: 9, ..Default::default() };
    let r = validate_and_return_lending_user_tab_account(program_id(), key, tab, 4, sm_owner, index, owner, 0);
    assert_eq!(r.unwrap().deposited_amount, 9);
    assert_eq!(
        validate_and_return_lending_user_tab_account(program_id(), key, tab, 5, sm_owner, index, owner, 0)
            .map(|t| t.bump),
        Err(LendingError::UnexpectedTabAccount)
    );
}

#[test]
fn statement_account_is_checked_against_the_month() {
    let sm_owner = pk(8);
    let owner = pk(12);
    let index: u16 = 1;
    let year: u16 = 2025;
    let (key, bump) = find_pda(
        &[
            b"userMonthlyStatementAccount",
            &[6],
            &year.to_le_bytes(),
            &[4],
            &sm_owner.bytes,
            &index.to_le_bytes(),
            &owner.bytes,
            &[0],
        ],
        program_id(),
    );
    let st = LendingUserMonthlyStatementAccount { bump, monthly_deposited_amount: 5, ..Default::default() };
    let r = validate_and_return_lending_user_monthly_state_account(
        program_id(), key, st, 6, year, 4, sm_owner, index, owner, 0,
    );
    assert_eq!(r.unwrap().monthly_deposited_amount, 5);
    assert_eq!(
        validate_and_return_lending_user_monthly_state_account(
            program_id(), key, st, 7, year, 4, sm_owner, index, owner, 0,
        )
        .map(|s| s.bump),
        Err(LendingError::UnexpectedMonthlyStatementAccount)
    );
}

#[test]
fn temp_price_account_belongs_to_its_user() {
    let user = pk(40);
    let (key, bump) = find_pda(&[b"oraclePriceData", &user.bytes], program_id());
    assert!(is_temp_price_account_address(program_id(), key, bump, user));
    assert!(!is_temp_price_account_address(program_id(), key, bump, pk(41)));
    let temp = TempOraclePriceAccount { bump, data: vec![], slot: 3 };
    assert_eq!(validate_and_return_temp_price_account(program_id(), key, temp.clone(), user).unwrap().slot, 3);
    assert_eq!(
        validate_and_return_temp_price_account(program_id(), pk(1), temp, user).map(|t| t.slot),
        Err(LendingError::UnexpectedOraclePriceDataAccount)
    );
}

#[test]
fn reserve_token_account_needs_mint_and_owner() {
    let good = TokenAccountKeys { mint: pk(1), owner: pk(2) };
    assert_eq!(validate_token_reserve_ata(Some(good), pk(1), pk(2)), Ok(()));
    assert_eq!(validate_token_reserve_ata(None, pk(1), pk(2)), Err(LendingError::InvalidTokenAccount));
    assert_eq!(validate_token_reserve_ata(Some(good), pk(3), pk(2)), Err(LendingError::InvalidTokenAccountMint));
    assert_eq!(validate_token_reserve_ata(Some(good), pk(1), pk(3)), Err(LendingError::InvalidTokenAccountOwner));
}
