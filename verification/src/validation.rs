use vstd::prelude::*;
use crate::errors::LendingError;
use crate::structs::{
    Pubkey, keys_equal, TempOraclePriceAccount, OraclePriceValidator, LendingStats, TokenReserve, SubMarket, LendingUserAccount,
    LendingUserTabAccount, LendingUserMonthlyStatementAccount,
};

verus! {

/// The program derived address of `seeds` under `program_id`, as the account address
/// crate's `create_program_address` computes it: a SHA-256 hash that must fall off the
/// ed25519 curve (`None` when it does not, or when the seeds are too many or too long).
pub uninterp spec fn program_address(seeds: Seq<Seq<u8>>, program_id: Seq<u8>) -> Option<Seq<u8>>;

/// The byte contents of a list of seeds.
pub open spec fn seeds_view(seeds: Seq<&[u8]>) -> Seq<Seq<u8>> {
    seeds.map_values(|s: &[u8]| s@)
}

/// `Pubkey::create_program_address` of the account address crate. Its result is
/// named by `program_address` over the seed bytes and the program id bytes.
#[verifier::external_body]
fn create_program_address(seeds: &[&[u8]], program_id: &Pubkey) -> (r: Option<Pubkey>)
    ensures
        r matches Some(k) ==> program_address(seeds_view(seeds@), program_id.bytes@) == Some(k.bytes@),
        r is None ==> program_address(seeds_view(seeds@), program_id.bytes@) is None,
{
    let program_id = anchor_lang::prelude::Pubkey::new_from_array(program_id.bytes);
    match anchor_lang::prelude::Pubkey::create_program_address(seeds, &program_id) {
        Ok(k) => Some(Pubkey { bytes: k.to_bytes() }),
        Err(_) => None,
    }
}

/// Whether `key` is the program derived address of `seeds`.
pub open spec fn is_program_address(seeds: Seq<Seq<u8>>, program_id: Pubkey, key: Pubkey) -> bool {
    program_address(seeds, program_id.bytes@) == Some(key.bytes@)
}

/// Checks that `key` is the program derived address of `seeds` under `program_id`.
fn check_program_address(seeds: &[&[u8]], program_id: &Pubkey, key: &Pubkey) -> (r: bool)
    ensures
        r == is_program_address(seeds_view(seeds@), *program_id, *key),
{
    match create_program_address(seeds, program_id) {
        Some(expected) => {
            let eq = keys_equal(&expected, key);
            proof {
                if !eq {
                    assert(expected.bytes@ != key.bytes@) by {
                        broadcast use vstd::array::group_array_axioms;
                        if expected.bytes@ == key.bytes@ {
                            assert(expected.bytes =~= key.bytes);
                        }
                    }
                }
            }
            eq
        },
        None => false,
    }
}

/// The little endian bytes of a 16 bit integer.
pub open spec fn le_bytes_u16(x: u16) -> Seq<u8> {
    seq![(x % 256) as u8, (x / 256) as u8]
}

/// Computes the little endian bytes of a 16 bit integer.
fn u16_le_bytes(x: u16) -> (r: [u8; 2])
    ensures
        r@ == le_bytes_u16(x),
{
    let r = [(x % 256) as u8, (x / 256) as u8];
    assert(r@ =~= le_bytes_u16(x));
    r
}

/// The bytes of a seed given as text.
pub open spec fn text_seed(s: &str) -> Seq<u8> {
    vstd::utf8::encode_utf8(s@)
}

/// Seeds of the oracle price validator account.
pub open spec fn price_validator_seeds(bump: u8) -> Seq<Seq<u8>> {
    seq![text_seed("oraclePriceValidator"), seq![bump]]
}

/// Seeds of the lending statistics account.
pub open spec fn lending_stats_seeds(bump: u8) -> Seq<Seq<u8>> {
    seq![text_seed("lendingStats"), seq![bump]]
}

/// Seeds of a token reserve account.
pub open spec fn token_reserve_seeds(mint: Pubkey, bump: u8) -> Seq<Seq<u8>> {
    seq![text_seed("tokenReserve"), mint.bytes@, seq![bump]]
}

/// Seeds of a sub market account.
pub open spec fn sub_market_seeds(token_id: u8, owner: Pubkey, sub_market_index: u16, bump: u8) -> Seq<Seq<u8>> {
    seq![text_seed("subMarket"), seq![token_id], owner.bytes@, le_bytes_u16(sub_market_index), seq![bump]]
}

/// Seeds of a lending user account.
pub open spec fn lending_user_account_seeds(owner: Pubkey, user_account_index: u8, bump: u8) -> Seq<Seq<u8>> {
    seq![text_seed("lendingUserAccount"), owner.bytes@, seq![user_account_index], seq![bump]]
}

/// Seeds of a lending user tab account.
pub open spec fn tab_account_seeds(
    token_id: u8,
    sub_market_owner: Pubkey,
    sub_market_index: u16,
    owner: Pubkey,
    user_account_index: u8,
    bump: u8,
) -> Seq<Seq<u8>> {
    seq![
        text_seed("lendingUserTabAccount"),
        seq![token_id],
        sub_market_owner.bytes@,
        le_bytes_u16(sub_market_index),
        owner.bytes@,
        seq![user_account_index],
        seq![bump],
    ]
}

/// Seeds of a monthly statement account.
pub open spec fn monthly_statement_seeds(
    month: u8,
    year: u16,
    token_id: u8,
    sub_market_owner: Pubkey,
    sub_market_index: u16,
    owner: Pubkey,
    user_account_index: u8,
    bump: u8,
) -> Seq<Seq<u8>> {
    seq![
        text_seed("userMonthlyStatementAccount"),
        seq![month],
        le_bytes_u16(year),
        seq![token_id],
        sub_market_owner.bytes@,
        le_bytes_u16(sub_market_index),
        owner.bytes@,
        seq![user_account_index],
        seq![bump],
    ]
}

/// Accepts the decoded oracle price validator account only when it lives at its
/// program derived address.
pub fn validate_and_return_price_validator_account(
    program_id: Pubkey,
    account_key: Pubkey,
    price_validator: OraclePriceValidator,
) -> (r: Result<OraclePriceValidator, LendingError>)
    ensures
        r is Ok <==> is_program_address(price_validator_seeds(price_validator.bump), program_id, account_key),
        r matches Ok(v) ==> v == price_validator,
        r matches Err(e) ==> e == LendingError::UnexpectedOraclePriceValidatorAccount,
{
    let x0 = "oraclePriceValidator".as_bytes();
    let b = [price_validator.bump];
    let x1 = b.as_slice();
    let seeds: [&[u8]; 2] = [x0, x1];
    assert(x1@ =~= seq![price_validator.bump]);
    assert(seeds@[0] == x0 && seeds@[1] == x1);
    assert(seeds_view(seeds@) =~= price_validator_seeds(price_validator.bump));
    if !check_program_address(seeds.as_slice(), &program_id, &account_key) {
        return Err(LendingError::UnexpectedOraclePriceValidatorAccount);
    }
    Ok(price_validator)
}

/// Accepts the decoded lending statistics account only when it lives at its program
/// derived address.
pub fn validate_and_return_lending_stats_account(
    program_id: Pubkey,
    account_key: Pubkey,
    lending_stats: LendingStats,
) -> (r: Result<LendingStats, LendingError>)
    ensures
        r is Ok <==> is_program_address(lending_stats_seeds(lending_stats.bump), program_id, account_key),
        r matches Ok(v) ==> v == lending_stats,
        r matches Err(e) ==> e == LendingError::UnexpectedLendingStatsAccount,
{
    let x0 = "lendingStats".as_bytes();
    let b = [lending_stats.bump];
    let x1 = b.as_slice();
    let seeds: [&[u8]; 2] = [x0, x1];
    assert(x1@ =~= seq![lending_stats.bump]);
    assert(seeds@[0] == x0 && seeds@[1] == x1);
    assert(seeds_view(seeds@) =~= lending_stats_seeds(lending_stats.bump));
    if !check_program_address(seeds.as_slice(), &program_id, &account_key) {
        return Err(LendingError::UnexpectedLendingStatsAccount);
    }
    Ok(lending_stats)
}

/// Accepts the decoded token reserve account only when it lives at the program
/// derived address of its own mint and bump.
pub fn validate_and_return_token_reserve_account(
    program_id: Pubkey,
    account_key: Pubkey,
    token_reserve: TokenReserve,
) -> (r: Result<TokenReserve, LendingError>)
    ensures
        r is Ok <==> is_program_address(token_reserve_seeds(token_reserve.token_mint_address, token_reserve.bump),
            program_id, account_key),
        r matches Ok(v) ==> v == token_reserve,
        r matches Err(e) ==> e == LendingError::UnexpectedTokenReserveAccount,
{
    let x0 = "tokenReserve".as_bytes();
    let x1 = token_reserve.token_mint_address.bytes.as_slice();
    let b = [token_reserve.bump];
    let x2 = b.as_slice();
    let seeds: [&[u8]; 3] = [x0, x1, x2];
    assert(x2@ =~= seq![token_reserve.bump]);
    assert(seeds@[0] == x0 && seeds@[1] == x1 && seeds@[2] == x2);
    assert(seeds_view(seeds@) =~= token_reserve_seeds(token_reserve.token_mint_address, token_reserve.bump));
    if !check_program_address(seeds.as_slice(), &program_id, &account_key) {
        return Err(LendingError::UnexpectedTokenReserveAccount);
    }
    Ok(token_reserve)
}

/// The mint and owner that a decoded token account holds.
#[derive(Debug, Clone, Copy)]
pub struct TokenAccountKeys {
    pub mint: Pubkey,
    pub owner: Pubkey,
}

/// Checks a token reserve's token account: it must have been decoded (`None` when it
/// could not be), hold the expected mint and be owned by the expected authority.
pub fn validate_token_reserve_ata(
    token_account: Option<TokenAccountKeys>,
    expected_mint: Pubkey,
    expected_authority: Pubkey,
) -> (r: Result<(), LendingError>)
    ensures
        r == (match token_account {
            None => Err(LendingError::InvalidTokenAccount),
            Some(t) => if t.mint != expected_mint {
                Err(LendingError::InvalidTokenAccountMint)
            } else if t.owner != expected_authority {
                Err(LendingError::InvalidTokenAccountOwner)
            } else {
                Ok(())
            },
        }),
{
    match token_account {
        None => Err(LendingError::InvalidTokenAccount),
        Some(t) => {
            if !keys_equal(&t.mint, &expected_mint) {
                return Err(LendingError::InvalidTokenAccountMint);
            }
            if !keys_equal(&t.owner, &expected_authority) {
                return Err(LendingError::InvalidTokenAccountOwner);
            }
            Ok(())
        },
    }
}

/// Accepts the decoded sub market account only when it lives at the program derived
/// address of the given token, owner and index.
pub fn validate_and_return_sub_market_account(
    program_id: Pubkey,
    account_key: Pubkey,
    sub_market: SubMarket,
    token_id: u8,
    sub_market_owner_address: Pubkey,
    sub_market_index: u16,
) -> (r: Result<SubMarket, LendingError>)
    ensures
        r is Ok <==> is_program_address(sub_market_seeds(token_id, sub_market_owner_address, sub_market_index,
            sub_market.bump), program_id, account_key),
        r matches Ok(v) ==> v == sub_market,
        r matches Err(e) ==> e == LendingError::UnexpectedSubMarketAccount,
{
    let x0 = "subMarket".as_bytes();
    let t = [token_id];
    let x1 = t.as_slice();
    let x2 = sub_market_owner_address.bytes.as_slice();
    let i = u16_le_bytes(sub_market_index);
    let x3 = i.as_slice();
    let b = [sub_market.bump];
    let x4 = b.as_slice();
    let seeds: [&[u8]; 5] = [x0, x1, x2, x3, x4];
    assert(x1@ =~= seq![token_id]);
    assert(x4@ =~= seq![sub_market.bump]);
    assert(seeds@[0] == x0 && seeds@[1] == x1 && seeds@[2] == x2 && seeds@[3] == x3 && seeds@[4] == x4);
    assert(seeds_view(seeds@) =~= sub_market_seeds(token_id, sub_market_owner_address, sub_market_index, sub_market.bump));
    if !check_program_address(seeds.as_slice(), &program_id, &account_key) {
        return Err(LendingError::UnexpectedSubMarketAccount);
    }
    Ok(sub_market)
}

/// Accepts the decoded lending user account only when it lives at the program
/// derived address of the given owner and account index.
pub fn validate_and_return_lending_user_account(
    program_id: Pubkey,
    account_key: Pubkey,
    lending_user_account: LendingUserAccount,
    user_account_owner_address: Pubkey,
    user_account_index: u8,
) -> (r: Result<LendingUserAccount, LendingError>)
    ensures
        r is Ok <==> is_program_address(lending_user_account_seeds(user_account_owner_address, user_account_index,
            lending_user_account.bump), program_id, account_key),
        r matches Ok(v) ==> v == lending_user_account,
        r matches Err(e) ==> e == LendingError::UnexpectedLendingUserAccount,
{
    let x0 = "lendingUserAccount".as_bytes();
    let x1 = user_account_owner_address.bytes.as_slice();
    let u = [user_account_index];
    let x2 = u.as_slice();
    let b = [lending_user_account.bump];
    let x3 = b.as_slice();
    let seeds: [&[u8]; 4] = [x0, x1, x2, x3];
    assert(x2@ =~= seq![user_account_index]);
    assert(x3@ =~= seq![lending_user_account.bump]);
    assert(seeds@[0] == x0 && seeds@[1] == x1 && seeds@[2] == x2 && seeds@[3] == x3);
    assert(seeds_view(seeds@) =~= lending_user_account_seeds(user_account_owner_address, user_account_index,
        lending_user_account.bump));
    if !check_program_address(seeds.as_slice(), &program_id, &account_key) {
        return Err(LendingError::UnexpectedLendingUserAccount);
    }
    Ok(lending_user_account)
}

/// Accepts the decoded tab account only when it lives at the program derived address
/// of the given token, sub market and user.
pub fn validate_and_return_lending_user_tab_account(
    program_id: Pubkey,
    account_key: Pubkey,
    lending_user_tab_account: LendingUserTabAccount,
    token_id: u8,
    sub_market_owner_address: Pubkey,
    sub_market_index: u16,
    user_account_owner_address: Pubkey,
    user_account_index: u8,
) -> (r: Result<LendingUserTabAccount, LendingError>)
    ensures
        r is Ok <==> is_program_address(tab_account_seeds(token_id, sub_market_owner_address, sub_market_index,
            user_account_owner_address, user_account_index, lending_user_tab_account.bump), program_id, account_key),
        r matches Ok(v) ==> v == lending_user_tab_account,
        r matches Err(e) ==> e == LendingError::UnexpectedTabAccount,
{
    let x0 = "lendingUserTabAccount".as_bytes();
    let t = [token_id];
    let x1 = t.as_slice();
    let x2 = sub_market_owner_address.bytes.as_slice();
    let i = u16_le_bytes(sub_market_index);
    let x3 = i.as_slice();
    let x4 = user_account_owner_address.bytes.as_slice();
    let u = [user_account_index];
    let x5 = u.as_slice();
    let b = [lending_user_tab_account.bump];
    let x6 = b.as_slice();
    let seeds: [&[u8]; 7] = [x0, x1, x2, x3, x4, x5, x6];
    assert(x1@ =~= seq![token_id]);
    assert(x5@ =~= seq![user_account_index]);
    assert(x6@ =~= seq![lending_user_tab_account.bump]);
    assert(seeds@[0] == x0 && seeds@[1] == x1 && seeds@[2] == x2 && seeds@[3] == x3 && seeds@[4] == x4
        && seeds@[5] == x5 && seeds@[6] == x6);
    assert(seeds_view(seeds@) =~= tab_account_seeds(token_id, sub_market_owner_address, sub_market_index,
        user_account_owner_address, user_account_index, lending_user_tab_account.bump));
    if !check_program_address(seeds.as_slice(), &program_id, &account_key) {
        return Err(LendingError::UnexpectedTabAccount);
    }
    Ok(lending_user_tab_account)
}

/// Accepts the decoded monthly statement account only when it lives at the program
/// derived address of the given month, year, token, sub market and user.
pub fn validate_and_return_lending_user_monthly_state_account(
    program_id: Pubkey,
    account_key: Pubkey,
    monthly_statement_account: LendingUserMonthlyStatementAccount,
    current_statement_month: u8,
    current_statement_year: u16,
    token_id: u8,
    sub_market_owner_address: Pubkey,
    sub_market_index: u16,
    user_account_owner_address: Pubkey,
    user_account_index: u8,
) -> (r: Result<LendingUserMonthlyStatementAccount, LendingError>)
    ensures
        r is Ok <==> is_program_address(monthly_statement_seeds(current_statement_month, current_statement_year,
            token_id, sub_market_owner_address, sub_market_index, user_account_owner_address, user_account_index,
            monthly_statement_account.bump), program_id, account_key),
        r matches Ok(v) ==> v == monthly_statement_account,
        r matches Err(e) ==> e == LendingError::UnexpectedMonthlyStatementAccount,
{
    let x0 = "userMonthlyStatementAccount".as_bytes();
    let m = [current_statement_month];
    let x1 = m.as_slice();
    let y = u16_le_bytes(current_statement_year);
    let x2 = y.as_slice();
    let t = [token_id];
    let x3 = t.as_slice();
    let x4 = sub_market_owner_address.bytes.as_slice();
    let i = u16_le_bytes(sub_market_index);
    let x5 = i.as_slice();
    let x6 = user_account_owner_address.bytes.as_slice();
    let u = [user_account_index];
    let x7 = u.as_slice();
    let b = [monthly_statement_account.bump];
    let x8 = b.as_slice();
    let seeds: [&[u8]; 9] = [x0, x1, x2, x3, x4, x5, x6, x7, x8];
    assert(x1@ =~= seq![current_statement_month]);
    assert(x3@ =~= seq![token_id]);
    assert(x7@ =~= seq![user_account_index]);
    assert(x8@ =~= seq![monthly_statement_account.bump]);
    assert(seeds@[0] == x0 && seeds@[1] == x1 && seeds@[2] == x2 && seeds@[3] == x3 && seeds@[4] == x4
        && seeds@[5] == x5 && seeds@[6] == x6 && seeds@[7] == x7 && seeds@[8] == x8);
    assert(seeds_view(seeds@) =~= monthly_statement_seeds(current_statement_month, current_statement_year,
        token_id, sub_market_owner_address, sub_market_index, user_account_owner_address, user_account_index,
        monthly_statement_account.bump));
    if !check_program_address(seeds.as_slice(), &program_id, &account_key) {
        return Err(LendingError::UnexpectedMonthlyStatementAccount);
    }
    Ok(monthly_statement_account)
}

/// Seeds of a user's temporary oracle price data account.
pub open spec fn price_data_seeds(lending_user: Pubkey, bump: u8) -> Seq<Seq<u8>> {
    seq![text_seed("oraclePriceData"), lending_user.bytes@, seq![bump]]
}

/// Whether `account_key` is the temporary price data account made for `lending_user`
/// with bump `bump`.
pub fn is_temp_price_account_address(program_id: Pubkey, account_key: Pubkey, bump: u8, lending_user_address: Pubkey)
    -> (r: bool)
    ensures
        r == is_program_address(price_data_seeds(lending_user_address, bump), program_id, account_key),
{
    let x0 = "oraclePriceData".as_bytes();
    let x1 = lending_user_address.bytes.as_slice();
    let b = [bump];
    let x2 = b.as_slice();
    let seeds: [&[u8]; 3] = [x0, x1, x2];
    assert(x2@ =~= seq![bump]);
    assert(seeds@[0] == x0 && seeds@[1] == x1 && seeds@[2] == x2);
    assert(seeds_view(seeds@) =~= price_data_seeds(lending_user_address, bump));
    check_program_address(seeds.as_slice(), &program_id, &account_key)
}

/// Accepts the decoded temporary price data account only when it lives at the
/// program derived address made for the given lending user.
pub fn validate_and_return_temp_price_account(
    program_id: Pubkey,
    account_key: Pubkey,
    temp_price_account: TempOraclePriceAccount,
    lending_user_address: Pubkey,
) -> (r: Result<TempOraclePriceAccount, LendingError>)
    ensures
        r is Ok <==> is_program_address(price_data_seeds(lending_user_address, temp_price_account.bump), program_id,
            account_key),
        r matches Ok(v) ==> v == temp_price_account,
        r matches Err(e) ==> e == LendingError::UnexpectedOraclePriceDataAccount,
{
    if !is_temp_price_account_address(program_id, account_key, temp_price_account.bump, lending_user_address) {
        return Err(LendingError::UnexpectedOraclePriceDataAccount);
    }
    Ok(temp_price_account)
}

} // verus!
