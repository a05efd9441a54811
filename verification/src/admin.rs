use vstd::prelude::*;
use vstd::string::StrSliceExecFns;
use crate::errors::LendingError;
use crate::structs::{
    Pubkey, keys_equal, LendingProtocolCEO, SolvencyTreasurer, LiquidationTreasurer, OraclePriceValidator,
    TempOraclePriceAccount, PriceDataPayload, LendingProtocol, LendingStats, TokenReserveStats, SubMarketStats,
    LendingUserStats, TokenReserve, SubMarket, SubMarketOwnerLookUpTable, LendingUserAccount, LendingUserTabAccount,
    LendingUserMonthlyStatementAccount,
};
use crate::steps::{spec_oracle_check, check_oracle_account};
use crate::interest::{index_update_computable, index_update_succeeds, spec_update_index};
use crate::rates::{rates_computable, spec_update_rates, update_token_reserve_rates};
use crate::initialization::{MAX_ACCOUNT_NAME_LENGTH, spec_init_statement};

verus! {

/// The number of tabs a lending account may open when the protocol starts.
pub const INITIAL_MAX_TABS_PER_LENDING_ACCOUNT: u8 = 10;

/// The highest base borrow APY a reserve may have, in basis points (5%).
pub const MAX_BASE_BORROW_APY: u16 = 500;

/// The highest solvency insurance fee rate on interest, in basis points (4%).
pub const MAX_SOLVENCY_INSURANCE_FEE_RATE: u16 = 400;

/// The highest sub market fee rate on interest, in basis points (100%).
pub const MAX_SUB_MARKET_FEE_RATE: u16 = 10000;

/// The starting value of a reserve's interest indexes (1 with 18 decimals).
pub const INITIAL_INTEREST_INDEX: u128 = 1_000_000_000_000_000_000;

/// The addresses a deployment of the protocol starts with.
#[derive(Debug, Clone, Copy)]
pub struct InitialAddresses {
    pub ceo: Pubkey,
    pub solvency_treasurer: Pubkey,
    pub liquidation_treasurer: Pubkey,
    pub price_oracle_validator: Pubkey,
}

/// The accounts the protocol's initialization fills in.
#[derive(Debug, Clone, Copy)]
pub struct InitializeLendingProtocol {
    pub signer: Pubkey,
    pub look_up_table_address: Pubkey,
    pub ceo: LendingProtocolCEO,
    pub solvency_treasurer: SolvencyTreasurer,
    pub liquidation_treasurer: LiquidationTreasurer,
    pub price_validator: OraclePriceValidator,
    pub lending_protocol: LendingProtocol,
    pub lending_stats: LendingStats,
    pub price_validator_bump: u8,
    pub lending_stats_bump: u8,
}

/// The protocol's accounts once initialized: only the deployment's first CEO may do it;
/// the roles get their first addresses, the statement period is set, and each lending
/// account may open ten tabs.
pub open spec fn spec_initialize_lending_protocol(
    c: InitializeLendingProtocol,
    initial: InitialAddresses,
    statement_month: u8,
    statement_year: u16,
) -> Result<InitializeLendingProtocol, LendingError> {
    if c.signer != initial.ceo {
        Err(LendingError::NotCEO)
    } else {
        Ok(InitializeLendingProtocol {
            ceo: LendingProtocolCEO { address: initial.ceo },
            solvency_treasurer: SolvencyTreasurer { address: initial.solvency_treasurer },
            liquidation_treasurer: LiquidationTreasurer { address: initial.liquidation_treasurer },
            price_validator: OraclePriceValidator {
                bump: c.price_validator_bump,
                address: initial.price_oracle_validator,
            },
            lending_protocol: LendingProtocol {
                current_statement_month: statement_month,
                current_statement_year: statement_year,
                max_tabs_per_lending_account: INITIAL_MAX_TABS_PER_LENDING_ACCOUNT,
                look_up_table_address: c.look_up_table_address,
                ..c.lending_protocol
            },
            lending_stats: LendingStats { bump: c.lending_stats_bump, ..c.lending_stats },
            ..c
        })
    }
}

/// Initializes the protocol (see `spec_initialize_lending_protocol`).
pub fn initialize_lending_protocol(
    ctx: InitializeLendingProtocol,
    initial: InitialAddresses,
    statement_month: u8,
    statement_year: u16,
) -> (r: Result<InitializeLendingProtocol, LendingError>)
    ensures
        r == spec_initialize_lending_protocol(ctx, initial, statement_month, statement_year),
{
    if !keys_equal(&ctx.signer, &initial.ceo) {
        return Err(LendingError::NotCEO);
    }
    let mut c = ctx;
    c.ceo.address = initial.ceo;
    c.solvency_treasurer.address = initial.solvency_treasurer;
    c.liquidation_treasurer.address = initial.liquidation_treasurer;
    c.price_validator.bump = c.price_validator_bump;
    c.price_validator.address = initial.price_oracle_validator;
    c.lending_protocol.current_statement_month = statement_month;
    c.lending_protocol.current_statement_year = statement_year;
    c.lending_protocol.max_tabs_per_lending_account = INITIAL_MAX_TABS_PER_LENDING_ACCOUNT;
    c.lending_protocol.look_up_table_address = c.look_up_table_address;
    c.lending_stats.bump = c.lending_stats_bump;
    Ok(c)
}

/// Hands the CEO title to `new_ceo_address`; only the CEO may.
pub fn pass_on_lending_protocol_ceo(ceo: &mut LendingProtocolCEO, signer: Pubkey, new_ceo_address: Pubkey)
    -> (r: Result<(), LendingError>)
    ensures
        r is Ok <==> signer == old(ceo).address,
        r is Ok ==> final(ceo).address == new_ceo_address,
        r matches Err(e) ==> e == LendingError::NotCEO && *final(ceo) == *old(ceo),
{
    if !keys_equal(&signer, &ceo.address) {
        return Err(LendingError::NotCEO);
    }
    ceo.address = new_ceo_address;
    Ok(())
}

/// Hands the solvency treasurer title to `new_treasurer_address`; only the treasurer may.
pub fn pass_on_solvency_treasurer(treasurer: &mut SolvencyTreasurer, signer: Pubkey, new_treasurer_address: Pubkey)
    -> (r: Result<(), LendingError>)
    ensures
        r is Ok <==> signer == old(treasurer).address,
        r is Ok ==> final(treasurer).address == new_treasurer_address,
        r matches Err(e) ==> e == LendingError::NotSolvencyTreasurer && *final(treasurer) == *old(treasurer),
{
    if !keys_equal(&signer, &treasurer.address) {
        return Err(LendingError::NotSolvencyTreasurer);
    }
    treasurer.address = new_treasurer_address;
    Ok(())
}

/// Hands the liquidation treasurer title to `new_treasurer_address`; only the treasurer
/// may.
pub fn pass_on_liquidation_treasurer(
    treasurer: &mut LiquidationTreasurer,
    signer: Pubkey,
    new_treasurer_address: Pubkey,
) -> (r: Result<(), LendingError>)
    ensures
        r is Ok <==> signer == old(treasurer).address,
        r is Ok ==> final(treasurer).address == new_treasurer_address,
        r matches Err(e) ==> e == LendingError::NotLiquidationTreasurer && *final(treasurer) == *old(treasurer),
{
    if !keys_equal(&signer, &treasurer.address) {
        return Err(LendingError::NotLiquidationTreasurer);
    }
    treasurer.address = new_treasurer_address;
    Ok(())
}

/// Sets the price oracle's address; only the CEO may.
pub fn set_oracle_price_validator(
    ceo: &LendingProtocolCEO,
    price_validator: &mut OraclePriceValidator,
    signer: Pubkey,
    new_price_validator_address: Pubkey,
) -> (r: Result<(), LendingError>)
    ensures
        r is Ok <==> signer == ceo.address,
        r is Ok ==> *final(price_validator) == (OraclePriceValidator {
            address: new_price_validator_address,
            ..*old(price_validator)
        }),
        r matches Err(e) ==> e == LendingError::NotCEO && *final(price_validator) == *old(price_validator),
{
    if !keys_equal(&signer, &ceo.address) {
        return Err(LendingError::NotCEO);
    }
    price_validator.address = new_price_validator_address;
    Ok(())
}

/// Fills a new temporary price data account with the oracle's verified prices; only the
/// price oracle may.
pub fn create_temp_oracle_price_data(
    price_validator: &OraclePriceValidator,
    temp_price_account: &mut TempOraclePriceAccount,
    signer: Pubkey,
    bump: u8,
    payload: PriceDataPayload,
) -> (r: Result<(), LendingError>)
    ensures
        r is Ok <==> signer == price_validator.address,
        r is Ok ==> final(temp_price_account).bump == bump && final(temp_price_account).data@ == payload.data@
            && final(temp_price_account).slot == payload.slot,
        r matches Err(e) ==> e == LendingError::NotPriceOracle && *final(temp_price_account) == *old(temp_price_account),
{
    if !keys_equal(&signer, &price_validator.address) {
        return Err(LendingError::NotPriceOracle);
    }
    temp_price_account.bump = bump;
    temp_price_account.data = payload.data;
    temp_price_account.slot = payload.slot;
    Ok(())
}

/// Checks the account that a closed temporary price data account's rent goes to: it
/// must be handed in and be the price oracle's.
pub fn close_temp_oracle_price_data(price_validator: &OraclePriceValidator, oracle_account: Option<Pubkey>)
    -> (r: Result<(), LendingError>)
    ensures
        r == spec_oracle_check(oracle_account, price_validator.address),
{
    check_oracle_account(oracle_account, price_validator.address)
}

/// Sets the protocol's current statement month and year; only the CEO may.
pub fn update_current_statement_month_and_year(
    ceo: &LendingProtocolCEO,
    lending_protocol: &mut LendingProtocol,
    signer: Pubkey,
    statement_month: u8,
    statement_year: u16,
) -> (r: Result<(), LendingError>)
    ensures
        r is Ok <==> signer == ceo.address,
        r is Ok ==> *final(lending_protocol) == (LendingProtocol {
            current_statement_month: statement_month,
            current_statement_year: statement_year,
            ..*old(lending_protocol)
        }),
        r matches Err(e) ==> e == LendingError::NotCEO && *final(lending_protocol) == *old(lending_protocol),
{
    if !keys_equal(&signer, &ceo.address) {
        return Err(LendingError::NotCEO);
    }
    lending_protocol.current_statement_month = statement_month;
    lending_protocol.current_statement_year = statement_year;
    Ok(())
}

/// Sets how many tabs a lending account may open; only the CEO may.
pub fn update_max_tab_amount(
    ceo: &LendingProtocolCEO,
    lending_protocol: &mut LendingProtocol,
    signer: Pubkey,
    new_max_tab_amount: u8,
) -> (r: Result<(), LendingError>)
    ensures
        r is Ok <==> signer == ceo.address,
        r is Ok ==> *final(lending_protocol) == (LendingProtocol {
            max_tabs_per_lending_account: new_max_tab_amount,
            ..*old(lending_protocol)
        }),
        r matches Err(e) ==> e == LendingError::NotCEO && *final(lending_protocol) == *old(lending_protocol),
{
    if !keys_equal(&signer, &ceo.address) {
        return Err(LendingError::NotCEO);
    }
    lending_protocol.max_tabs_per_lending_account = new_max_tab_amount;
    Ok(())
}

/// Why the CEO's request on a token reserve is refused, if it is: a signer other than
/// the CEO, a base borrow APY over 5%, or a solvency insurance fee over 4%, checked in
/// that order.
pub open spec fn spec_reserve_request_error(ceo: LendingProtocolCEO, signer: Pubkey, base_borrow_apy: u16,
    solvency_insurance_fee_rate: u16) -> Option<LendingError> {
    if signer != ceo.address {
        Some(LendingError::NotCEO)
    } else if base_borrow_apy > MAX_BASE_BORROW_APY {
        Some(LendingError::InvalidBaseBorrowAPY)
    } else if solvency_insurance_fee_rate > MAX_SOLVENCY_INSURANCE_FEE_RATE {
        Some(LendingError::InvalidSolvencyInsuranceFeeRate)
    } else {
        None
    }
}

/// Checks the CEO's request on a token reserve (see `spec_reserve_request_error`).
fn check_reserve_request(ceo: &LendingProtocolCEO, signer: Pubkey, base_borrow_apy: u16,
    solvency_insurance_fee_rate: u16) -> (r: Result<(), LendingError>)
    ensures
        match spec_reserve_request_error(*ceo, signer, base_borrow_apy, solvency_insurance_fee_rate) {
            Some(e) => r == Err::<(), LendingError>(e),
            None => r is Ok,
        },
{
    if !keys_equal(&signer, &ceo.address) {
        return Err(LendingError::NotCEO);
    }
    if base_borrow_apy > MAX_BASE_BORROW_APY {
        return Err(LendingError::InvalidBaseBorrowAPY);
    }
    if solvency_insurance_fee_rate > MAX_SOLVENCY_INSURANCE_FEE_RATE {
        return Err(LendingError::InvalidSolvencyInsuranceFeeRate);
    }
    Ok(())
}

/// A new token reserve as the CEO adds it: its borrow APY starts at its base, both
/// interest indexes at one, and it takes the next token id.
pub open spec fn spec_new_reserve(
    tr: TokenReserve,
    bump: u8,
    token_mint_address: Pubkey,
    token_decimal_amount: u8,
    base_borrow_apy: u16,
    use_fixed_borrow_apy: bool,
    global_limit: u128,
    solvency_insurance_fee_rate: u16,
    token_id: u8,
) -> TokenReserve {
    TokenReserve {
        bump: bump,
        token_mint_address: token_mint_address,
        token_decimal_amount: token_decimal_amount,
        borrow_apy: base_borrow_apy,
        base_borrow_apy: base_borrow_apy,
        use_fixed_borrow_apy: use_fixed_borrow_apy,
        global_limit: global_limit,
        solvency_insurance_fee_rate: solvency_insurance_fee_rate,
        supply_interest_change_index: INITIAL_INTEREST_INDEX,
        borrow_interest_change_index: INITIAL_INTEREST_INDEX,
        token_id: token_id,
        ..tr
    }
}

/// Adds a token reserve (see `spec_new_reserve`); refused as `spec_reserve_request_error`
/// says. The reserve count grows by one and is the new reserve's token id.
pub fn add_token_reserve(
    ceo: &LendingProtocolCEO,
    signer: Pubkey,
    token_reserve_stats: &mut TokenReserveStats,
    token_reserve: &mut TokenReserve,
    bump: u8,
    token_mint_address: Pubkey,
    token_decimal_amount: u8,
    base_borrow_apy: u16,
    use_fixed_borrow_apy: bool,
    global_limit: u128,
    solvency_insurance_fee_rate: u16,
) -> (r: Result<(), LendingError>)
    requires
        old(token_reserve_stats).token_reserve_count < u8::MAX,
    ensures
        match spec_reserve_request_error(*ceo, signer, base_borrow_apy, solvency_insurance_fee_rate) {
            Some(e) => r == Err::<(), LendingError>(e) && *final(token_reserve) == *old(token_reserve)
                && *final(token_reserve_stats) == *old(token_reserve_stats),
            None => r is Ok && final(token_reserve_stats).token_reserve_count
                == old(token_reserve_stats).token_reserve_count + 1
                && *final(token_reserve_stats) == (TokenReserveStats {
                    token_reserve_count: final(token_reserve_stats).token_reserve_count,
                    ..*old(token_reserve_stats)
                })
                && *final(token_reserve) == spec_new_reserve(*old(token_reserve), bump, token_mint_address,
                    token_decimal_amount, base_borrow_apy, use_fixed_borrow_apy, global_limit,
                    solvency_insurance_fee_rate, final(token_reserve_stats).token_reserve_count),
        },
{
    check_reserve_request(ceo, signer, base_borrow_apy, solvency_insurance_fee_rate)?;
    token_reserve.bump = bump;
    token_reserve.token_mint_address = token_mint_address;
    token_reserve.token_decimal_amount = token_decimal_amount;
    token_reserve.borrow_apy = base_borrow_apy;
    token_reserve.base_borrow_apy = base_borrow_apy;
    token_reserve.use_fixed_borrow_apy = use_fixed_borrow_apy;
    token_reserve.global_limit = global_limit;
    token_reserve.solvency_insurance_fee_rate = solvency_insurance_fee_rate;
    token_reserve.supply_interest_change_index = INITIAL_INTEREST_INDEX;
    token_reserve.borrow_interest_change_index = INITIAL_INTEREST_INDEX;
    token_reserve_stats.token_reserve_count = token_reserve_stats.token_reserve_count + 1;
    token_reserve.token_id = token_reserve_stats.token_reserve_count;
    Ok(())
}

/// A token reserve with the CEO's new settings, its indexes advanced first when its
/// borrow APY settings change.
pub open spec fn spec_reserve_settings(tr: TokenReserve, base_borrow_apy: u16, use_fixed_borrow_apy: bool,
    global_limit: u128, solvency_insurance_fee_rate: u16) -> TokenReserve {
    TokenReserve {
        base_borrow_apy: base_borrow_apy,
        use_fixed_borrow_apy: use_fixed_borrow_apy,
        global_limit: global_limit,
        solvency_insurance_fee_rate: solvency_insurance_fee_rate,
        ..tr
    }
}

/// Whether changing a reserve's settings changes how its borrow APY is set, so that
/// the interest so far is accounted first.
pub open spec fn apy_settings_change(tr: TokenReserve, base_borrow_apy: u16, use_fixed_borrow_apy: bool) -> bool {
    tr.base_borrow_apy != base_borrow_apy || tr.use_fixed_borrow_apy != use_fixed_borrow_apy
}

/// The reserve an update gives, before its rates are recomputed: `None` when advancing
/// the indexes fails.
pub open spec fn spec_updated_reserve(tr: TokenReserve, base_borrow_apy: u16, use_fixed_borrow_apy: bool,
    global_limit: u128, solvency_insurance_fee_rate: u16, time_stamp: u64) -> Option<TokenReserve> {
    if apy_settings_change(tr, base_borrow_apy, use_fixed_borrow_apy) {
        if index_update_succeeds(tr, time_stamp) {
            Some(spec_reserve_settings(spec_update_index(tr, time_stamp, None), base_borrow_apy,
                use_fixed_borrow_apy, global_limit, solvency_insurance_fee_rate))
        } else {
            None
        }
    } else {
        Some(spec_reserve_settings(tr, base_borrow_apy, use_fixed_borrow_apy, global_limit,
            solvency_insurance_fee_rate))
    }
}

/// Changes a token reserve's settings; refused as `spec_reserve_request_error` says.
/// When the borrow APY settings change, the interest so far is accounted first (failing
/// with `ArithmeticOverflow` when the indexes cannot grow); then the settings are set,
/// the update counted and the rates recomputed.
pub fn update_token_reserve(
    ceo: &LendingProtocolCEO,
    signer: Pubkey,
    token_reserve_stats: &mut TokenReserveStats,
    token_reserve: &mut TokenReserve,
    base_borrow_apy: u16,
    use_fixed_borrow_apy: bool,
    global_limit: u128,
    solvency_insurance_fee_rate: u16,
    time_stamp: u64,
) -> (r: Result<(), LendingError>)
    requires
        old(token_reserve_stats).token_reserves_updated_count < u32::MAX,
        apy_settings_change(*old(token_reserve), base_borrow_apy, use_fixed_borrow_apy)
            ==> index_update_computable(*old(token_reserve), time_stamp),
        spec_updated_reserve(*old(token_reserve), base_borrow_apy, use_fixed_borrow_apy, global_limit,
            solvency_insurance_fee_rate, time_stamp) matches Some(t) ==> rates_computable(t),
    ensures
        match spec_reserve_request_error(*ceo, signer, base_borrow_apy, solvency_insurance_fee_rate) {
            Some(e) => r == Err::<(), LendingError>(e),
            None => match spec_updated_reserve(*old(token_reserve), base_borrow_apy, use_fixed_borrow_apy,
                global_limit, solvency_insurance_fee_rate, time_stamp) {
                None => r == Err::<(), LendingError>(LendingError::ArithmeticOverflow),
                Some(t) => r is Ok && *final(token_reserve) == spec_update_rates(t)
                    && *final(token_reserve_stats) == (TokenReserveStats {
                        token_reserves_updated_count: (old(token_reserve_stats).token_reserves_updated_count + 1)
                            as u32,
                        ..*old(token_reserve_stats)
                    }),
            },
        },
{
    check_reserve_request(ceo, signer, base_borrow_apy, solvency_insurance_fee_rate)?;
    if token_reserve.base_borrow_apy != base_borrow_apy || token_reserve.use_fixed_borrow_apy != use_fixed_borrow_apy {
        crate::interest::update_token_reserve_supply_and_borrow_interest_change_index(token_reserve, time_stamp,
            None)?;
    }
    token_reserve.base_borrow_apy = base_borrow_apy;
    token_reserve.use_fixed_borrow_apy = use_fixed_borrow_apy;
    token_reserve.global_limit = global_limit;
    token_reserve.solvency_insurance_fee_rate = solvency_insurance_fee_rate;
    token_reserve_stats.token_reserves_updated_count = token_reserve_stats.token_reserves_updated_count + 1;
    update_token_reserve_rates(token_reserve);
    Ok(())
}

/// Creates a sub market of a token reserve for its owner, the signer: the fee rate may
/// be at most 100%; the owner's look up table must be given the first time. The sub
/// market takes the next creation number as its id.
pub fn create_sub_market(
    signer: Pubkey,
    fee_collector_address: Pubkey,
    token_reserve: &TokenReserve,
    sub_market: &mut SubMarket,
    bump: u8,
    sub_market_stats: &mut SubMarketStats,
    sub_market_owner_look_up_table: &mut SubMarketOwnerLookUpTable,
    sub_market_index: u16,
    fee_on_interest_earned_rate: u16,
    look_up_table_address: Option<Pubkey>,
) -> (r: Result<(), LendingError>)
    requires
        old(sub_market_stats).sub_market_creation_count < u32::MAX,
    ensures
        r matches Err(e) ==> *final(sub_market) == *old(sub_market) && *final(sub_market_stats) == *old(sub_market_stats)
            && *final(sub_market_owner_look_up_table) == *old(sub_market_owner_look_up_table),
        fee_on_interest_earned_rate > MAX_SUB_MARKET_FEE_RATE ==> r == Err::<(), LendingError>(
            LendingError::InvalidSubMarketFeeRate),
        fee_on_interest_earned_rate <= MAX_SUB_MARKET_FEE_RATE && !old(sub_market_owner_look_up_table).look_up_table_added
            && look_up_table_address is None ==> r == Err::<(), LendingError>(
            LendingError::MissingSubMarketLookUpTable),
        r is Ok <==> fee_on_interest_earned_rate <= MAX_SUB_MARKET_FEE_RATE
            && (old(sub_market_owner_look_up_table).look_up_table_added || look_up_table_address is Some),
        r is Ok ==> {
            &&& final(sub_market_stats).sub_market_creation_count == old(sub_market_stats).sub_market_creation_count + 1
            &&& final(sub_market_stats).sub_market_edit_count == old(sub_market_stats).sub_market_edit_count
            &&& *final(sub_market) == (SubMarket {
                bump: bump,
                owner: signer,
                fee_collector_address: fee_collector_address,
                fee_on_interest_earned_rate: fee_on_interest_earned_rate,
                token_id: token_reserve.token_id,
                sub_market_index: sub_market_index,
                id: final(sub_market_stats).sub_market_creation_count,
                ..*old(sub_market)
            })
            &&& *final(sub_market_owner_look_up_table) == if old(sub_market_owner_look_up_table).look_up_table_added {
                *old(sub_market_owner_look_up_table)
            } else {
                SubMarketOwnerLookUpTable {
                    owner: signer,
                    look_up_table_address: look_up_table_address->0,
                    look_up_table_added: true,
                }
            }
        },
{
    if fee_on_interest_earned_rate > MAX_SUB_MARKET_FEE_RATE {
        return Err(LendingError::InvalidSubMarketFeeRate);
    }
    if !sub_market_owner_look_up_table.look_up_table_added && look_up_table_address.is_none() {
        return Err(LendingError::MissingSubMarketLookUpTable);
    }
    sub_market.bump = bump;
    sub_market.owner = signer;
    sub_market.fee_collector_address = fee_collector_address;
    sub_market.fee_on_interest_earned_rate = fee_on_interest_earned_rate;
    sub_market.token_id = token_reserve.token_id;
    sub_market.sub_market_index = sub_market_index;
    sub_market_stats.sub_market_creation_count = sub_market_stats.sub_market_creation_count + 1;
    sub_market.id = sub_market_stats.sub_market_creation_count;
    if !sub_market_owner_look_up_table.look_up_table_added {
        if let Some(lut) = look_up_table_address {
            sub_market_owner_look_up_table.owner = signer;
            sub_market_owner_look_up_table.look_up_table_address = lut;
            sub_market_owner_look_up_table.look_up_table_added = true;
        }
    }
    Ok(())
}

/// Changes a sub market's fee collector and fee rate (at most 100%); the edit is counted.
pub fn edit_sub_market(
    sub_market: &mut SubMarket,
    sub_market_stats: &mut SubMarketStats,
    fee_collector_address: Pubkey,
    fee_on_interest_earned_rate: u16,
) -> (r: Result<(), LendingError>)
    requires
        old(sub_market_stats).sub_market_edit_count < u32::MAX,
    ensures
        r is Ok <==> fee_on_interest_earned_rate <= MAX_SUB_MARKET_FEE_RATE,
        r matches Err(e) ==> e == LendingError::InvalidSubMarketFeeRate && *final(sub_market) == *old(sub_market)
            && *final(sub_market_stats) == *old(sub_market_stats),
        r is Ok ==> *final(sub_market) == (SubMarket {
            fee_collector_address: fee_collector_address,
            fee_on_interest_earned_rate: fee_on_interest_earned_rate,
            ..*old(sub_market)
        }) && *final(sub_market_stats) == (SubMarketStats {
            sub_market_edit_count: (old(sub_market_stats).sub_market_edit_count + 1) as u32,
            ..*old(sub_market_stats)
        }),
{
    if fee_on_interest_earned_rate > MAX_SUB_MARKET_FEE_RATE {
        return Err(LendingError::InvalidSubMarketFeeRate);
    }
    sub_market.fee_collector_address = fee_collector_address;
    sub_market.fee_on_interest_earned_rate = fee_on_interest_earned_rate;
    sub_market_stats.sub_market_edit_count = sub_market_stats.sub_market_edit_count + 1;
    Ok(())
}

/// Renames a lending account: the name may be at most 25 characters long; the change is
/// counted.
pub fn edit_lending_user_account_name(
    lending_user_account: &mut LendingUserAccount,
    lending_user_stats: &mut LendingUserStats,
    account_name: String,
) -> (r: Result<(), LendingError>)
    requires
        old(lending_user_stats).name_change_count < u128::MAX,
    ensures
        r is Ok <==> account_name@.len() <= MAX_ACCOUNT_NAME_LENGTH,
        r matches Err(e) ==> e == LendingError::LendingUserAccountNameTooLong
            && *final(lending_user_account) == *old(lending_user_account)
            && *final(lending_user_stats) == *old(lending_user_stats),
        r is Ok ==> *final(lending_user_account) == (LendingUserAccount {
            account_name: account_name,
            ..*old(lending_user_account)
        }) && final(lending_user_stats).name_change_count == old(lending_user_stats).name_change_count + 1,
{
    if account_name.as_str().unicode_len() > MAX_ACCOUNT_NAME_LENGTH {
        return Err(LendingError::LendingUserAccountNameTooLong);
    }
    lending_user_account.account_name = account_name;
    lending_user_stats.name_change_count = lending_user_stats.name_change_count + 1;
    Ok(())
}

/// Opens a tab's monthly statement for the protocol's current month.
pub fn create_new_monthly_statement(
    lending_user_monthly_statement_account: &mut LendingUserMonthlyStatementAccount,
    lending_user_tab_account: &LendingUserTabAccount,
    lending_protocol: &LendingProtocol,
    bump: u8,
    token_id: u8,
    sub_market_owner_address: Pubkey,
    sub_market_index: u16,
    user_account_owner: Pubkey,
    user_account_index: u8,
) -> (r: Result<(), LendingError>)
    ensures
        r is Ok,
        *final(lending_user_monthly_statement_account) == spec_init_statement(
            *old(lending_user_monthly_statement_account), *lending_user_tab_account, *lending_protocol, bump,
            token_id, sub_market_owner_address, sub_market_index, user_account_owner, user_account_index),
{
    crate::initialization::initialize_lending_user_monthly_statement_account(lending_user_monthly_statement_account,
        lending_user_tab_account, lending_protocol, bump, token_id, sub_market_owner_address, sub_market_index,
        user_account_owner, user_account_index)
}

} // verus!
