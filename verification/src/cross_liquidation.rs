use vstd::prelude::*;
use crate::errors::LendingError;
use crate::structs::{
    Pubkey, LendingProtocol, LendingStats, OraclePriceValidator, TokenReserve, SubMarket, LendingUserAccount,
    LendingUserTabAccount, LendingUserMonthlyStatementAccount, TempOraclePriceAccount,
};
use crate::steps::{
    Outcome, same_user_account, spec_ensure_user_account, spec_ensure_tab, spec_ensure_statement,
    spec_step_settle_tab, spec_oracle_check, ensure_lending_user_account, ensure_lending_user_tab_account,
    ensure_monthly_statement, settle_tab, check_oracle_account, Effects, ACTIVITY_REPAY, ACTIVITY_LIQUIDATE,
};
use crate::oracle::{spec_price_lookup, pow10, get_verified_token_price, token_conversion_number};
use crate::rates::rates_computable;
use crate::validation::{
    is_program_address, price_validator_seeds, lending_user_account_seeds, TokenAccountKeys,
    validate_token_reserve_ata, validate_and_return_price_validator_account,
    validate_and_return_lending_user_account,
};
use crate::liquidation::{
    Keyed, LiquidationArgs, SubMarketPair, TwoMarketAccounts, spec_liquidation_terms, liquidation_terms, spec_seized,
    seized_collateral, spec_book_repayment, book_repayment, spec_book_seizure, book_seizure, spec_rates_and_sync2,
    rates_and_sync2, stamp_statement, stamp_sub_market, stamp_reserve, spec_check_keyed, spec_check_temp,
    spec_check_stats, spec_check_sub_market, spec_check_tab, spec_check_statement, spec_read_price,
    check_temp_price_account, check_lending_stats, check_sub_market, check_tab_account, check_statement_account,
    read_price,
};

verus! {

/// The accounts and readings a liquidation between two token reserves works on: the
/// liquidator repays a debt in one token and seizes collateral in another. The
/// liquidated user's lending account, the reserves' token accounts, the price
/// validator and everything the liquidated user owns come among the extra accounts.
pub struct LiquidateAccount {
    pub program_id: Pubkey,
    pub signer: Pubkey,
    pub repayment_sub_market_owner: Pubkey,
    pub liquidation_sub_market_owner: Pubkey,
    pub liquidati_account_owner: Pubkey,
    pub repayment_mint: Pubkey,
    pub liquidation_mint: Pubkey,
    pub repayment_token_reserve_key: Pubkey,
    pub liquidation_token_reserve_key: Pubkey,
    pub lending_protocol: LendingProtocol,
    pub repayment_token_reserve: TokenReserve,
    pub liquidation_token_reserve: TokenReserve,
    pub liquidator_lending_account: LendingUserAccount,
    pub liquidator_repayment_tab_account: LendingUserTabAccount,
    pub liquidator_liquidation_tab_account: LendingUserTabAccount,
    pub liquidator_repayment_monthly_statement_account: LendingUserMonthlyStatementAccount,
    pub liquidator_liquidation_monthly_statement_account: LendingUserMonthlyStatementAccount,
    pub liquidator_lending_account_bump: u8,
    pub liquidator_repayment_tab_account_bump: u8,
    pub liquidator_liquidation_tab_account_bump: u8,
    pub liquidator_repayment_monthly_statement_account_bump: u8,
    pub liquidator_liquidation_monthly_statement_account_bump: u8,
    pub clock_slot: u64,
    pub liquidati_lending_account: Option<Keyed<LendingUserAccount>>,
    /// The repayment reserve's token account: `None` when not handed in, `Some(None)`
    /// when it is not a token account.
    pub repayment_token_reserve_ata: Option<Option<TokenAccountKeys>>,
    /// The liquidation reserve's token account, as above.
    pub liquidation_token_reserve_ata: Option<Option<TokenAccountKeys>>,
    pub price_validator: Option<Keyed<OraclePriceValidator>>,
    pub temp_price_account: Option<Keyed<TempOraclePriceAccount>>,
    pub lending_stats: Option<Keyed<LendingStats>>,
    pub repayment_sub_market: Option<Keyed<SubMarket>>,
    pub liquidation_sub_market: Option<Keyed<SubMarket>>,
    pub liquidati_repayment_tab_account: Option<Keyed<LendingUserTabAccount>>,
    pub liquidati_liquidation_tab_account: Option<Keyed<LendingUserTabAccount>>,
    pub liquidati_repayment_monthly_statement_account: Option<Keyed<LendingUserMonthlyStatementAccount>>,
    pub liquidati_liquidation_monthly_statement_account: Option<Keyed<LendingUserMonthlyStatementAccount>>,
    pub oracle_account: Option<Pubkey>,
}

/// Two contexts of a liquidation between two token reserves agree, the liquidator's
/// account names compared by their characters.
pub open spec fn same_la(a: LiquidateAccount, b: LiquidateAccount) -> bool {
    &&& same_user_account(a.liquidator_lending_account, b.liquidator_lending_account)
    &&& a == (LiquidateAccount { liquidator_lending_account: a.liquidator_lending_account, ..b })
}

/// The liquidated user's lending account, checked.
pub open spec fn spec_check_liquidati(program_id: Pubkey, x: Option<Keyed<LendingUserAccount>>, owner: Pubkey,
    user_account_index: u8) -> Outcome<Keyed<LendingUserAccount>> {
    spec_check_keyed(x, x matches Some(k) && is_program_address(lending_user_account_seeds(owner,
        user_account_index, k.account.bump), program_id, k.key), LendingError::UnexpectedLendingUserAccount)
}

/// Checks the handed-in lending account of the liquidated user and returns it.
fn check_liquidati(program_id: Pubkey, x: &Option<Keyed<LendingUserAccount>>, owner: Pubkey, user_account_index: u8)
    -> (r: Result<LendingUserAccount, LendingError>)
    ensures
        match spec_check_liquidati(program_id, *x, owner, user_account_index) {
            Outcome::Done(k) => r matches Ok(v) && v == k.account,
            Outcome::Fail(e) => r matches Err(f) && f == e,
            Outcome::Abort => false,
        },
{
    match x {
        None => Err(LendingError::MissingRemainingAccount),
        Some(k) => validate_and_return_lending_user_account(program_id, k.key, k.account.duplicate(), owner,
            user_account_index),
    }
}

/// One token account of a reserve, checked: handed in, decoded, of the reserve's mint
/// and owned by the reserve.
pub open spec fn spec_check_ata(x: Option<TokenAccountKeys>, mint: Pubkey, reserve: Pubkey) -> Result<(), LendingError> {
    match x {
        None => Err(LendingError::InvalidTokenAccount),
        Some(t) => if t.mint != mint {
            Err(LendingError::InvalidTokenAccountMint)
        } else if t.owner != reserve {
            Err(LendingError::InvalidTokenAccountOwner)
        } else {
            Ok(())
        },
    }
}

/// Both reserves' token accounts, checked: both must be handed in, then each is checked.
pub open spec fn spec_check_atas(c: LiquidateAccount) -> Result<(), LendingError> {
    match (c.repayment_token_reserve_ata, c.liquidation_token_reserve_ata) {
        (Some(rep), Some(liq)) => match spec_check_ata(rep, c.repayment_mint, c.repayment_token_reserve_key) {
            Err(e) => Err(e),
            Ok(_) => spec_check_ata(liq, c.liquidation_mint, c.liquidation_token_reserve_key),
        },
        _ => Err(LendingError::MissingRemainingAccount),
    }
}

/// Checks both reserves' token accounts (see `spec_check_atas`).
fn check_atas(c: &LiquidateAccount) -> (r: Result<(), LendingError>)
    ensures
        r == spec_check_atas(*c),
{
    match (c.repayment_token_reserve_ata, c.liquidation_token_reserve_ata) {
        (Some(rep), Some(liq)) => {
            validate_token_reserve_ata(rep, c.repayment_mint, c.repayment_token_reserve_key)?;
            validate_token_reserve_ata(liq, c.liquidation_mint, c.liquidation_token_reserve_key)
        },
        _ => Err(LendingError::MissingRemainingAccount),
    }
}

/// The oracle price validator account, checked.
pub open spec fn spec_check_validator(program_id: Pubkey, x: Option<Keyed<OraclePriceValidator>>)
    -> Outcome<Keyed<OraclePriceValidator>> {
    spec_check_keyed(x, x matches Some(k) && is_program_address(price_validator_seeds(k.account.bump), program_id,
        k.key), LendingError::UnexpectedOraclePriceValidatorAccount)
}

/// Checks the handed-in oracle price validator account.
fn check_validator(program_id: Pubkey, x: Option<Keyed<OraclePriceValidator>>)
    -> (r: Result<OraclePriceValidator, LendingError>)
    ensures
        match spec_check_validator(program_id, x) {
            Outcome::Done(k) => r matches Ok(v) && v == k.account,
            Outcome::Fail(e) => r matches Err(f) && f == e,
            Outcome::Abort => false,
        },
{
    match x {
        None => Err(LendingError::MissingRemainingAccount),
        Some(k) => validate_and_return_price_validator_account(program_id, k.key, k.account),
    }
}

/// The statistics, sub markets, tabs and statements of a liquidation between two token
/// reserves, checked in turn: the repayment side in the repayment token, the
/// liquidation side in the liquidation token.
pub open spec fn spec_check_cross_markets(c: LiquidateAccount, m: SubMarketPair, a: LiquidationArgs)
    -> Outcome<TwoMarketAccounts> {
    let rep_id = c.repayment_token_reserve.token_id;
    let liq_id = c.liquidation_token_reserve.token_id;
    let pid = c.program_id;
    match spec_check_stats(pid, c.lending_stats) {
        Outcome::Fail(e) => Outcome::Fail(e),
        Outcome::Abort => Outcome::Abort,
        Outcome::Done(stats) => match spec_check_sub_market(pid, c.repayment_sub_market, rep_id,
            c.repayment_sub_market_owner, m.repayment_sub_market_index) {
            Outcome::Fail(e) => Outcome::Fail(e),
            Outcome::Abort => Outcome::Abort,
            Outcome::Done(rep_sm) => match spec_check_sub_market(pid, c.liquidation_sub_market, liq_id,
                c.liquidation_sub_market_owner, m.liquidation_sub_market_index) {
                Outcome::Fail(e) => Outcome::Fail(e),
                Outcome::Abort => Outcome::Abort,
                Outcome::Done(liq_sm) => match spec_check_tab(pid, c.liquidati_repayment_tab_account, rep_id,
                    c.repayment_sub_market_owner, m.repayment_sub_market_index, c.liquidati_account_owner,
                    a.liquidati_account_index) {
                    Outcome::Fail(e) => Outcome::Fail(e),
                    Outcome::Abort => Outcome::Abort,
                    Outcome::Done(ti_rep_tab) => match spec_check_tab(pid, c.liquidati_liquidation_tab_account,
                        liq_id, c.liquidation_sub_market_owner, m.liquidation_sub_market_index,
                        c.liquidati_account_owner, a.liquidati_account_index) {
                        Outcome::Fail(e) => Outcome::Fail(e),
                        Outcome::Abort => Outcome::Abort,
                        Outcome::Done(ti_liq_tab) => match spec_check_statement(pid,
                            c.liquidati_repayment_monthly_statement_account, c.lending_protocol, rep_id,
                            c.repayment_sub_market_owner, m.repayment_sub_market_index, c.liquidati_account_owner,
                            a.liquidati_account_index) {
                            Outcome::Fail(e) => Outcome::Fail(e),
                            Outcome::Abort => Outcome::Abort,
                            Outcome::Done(ti_rep_st) => match spec_check_statement(pid,
                                c.liquidati_liquidation_monthly_statement_account, c.lending_protocol, liq_id,
                                c.liquidation_sub_market_owner, m.liquidation_sub_market_index,
                                c.liquidati_account_owner, a.liquidati_account_index) {
                                Outcome::Fail(e) => Outcome::Fail(e),
                                Outcome::Abort => Outcome::Abort,
                                Outcome::Done(ti_liq_st) => Outcome::Done(TwoMarketAccounts {
                                    stats: stats,
                                    rep_sm: rep_sm,
                                    liq_sm: liq_sm,
                                    ti_rep_tab: ti_rep_tab,
                                    ti_liq_tab: ti_liq_tab,
                                    ti_rep_st: ti_rep_st,
                                    ti_liq_st: ti_liq_st,
                                }),
                            },
                        },
                    },
                },
            },
        },
    }
}

/// Checks the statistics, sub markets, tabs and statements (see
/// `spec_check_cross_markets`).
fn check_cross_markets(ctx: &LiquidateAccount, m: SubMarketPair, args: LiquidationArgs)
    -> (r: Result<TwoMarketAccounts, LendingError>)
    ensures
        match spec_check_cross_markets(*ctx, m, args) {
            Outcome::Done(x) => r matches Ok(y) && y == x,
            Outcome::Fail(e) => r matches Err(f) && f == e,
            Outcome::Abort => false,
        },
{
    let rep_id = ctx.repayment_token_reserve.token_id;
    let liq_id = ctx.liquidation_token_reserve.token_id;
    let pid = ctx.program_id;
    let stats = check_lending_stats(pid, ctx.lending_stats)?;
    let rep_sm = check_sub_market(pid, ctx.repayment_sub_market, rep_id, ctx.repayment_sub_market_owner,
        m.repayment_sub_market_index)?;
    let liq_sm = check_sub_market(pid, ctx.liquidation_sub_market, liq_id, ctx.liquidation_sub_market_owner,
        m.liquidation_sub_market_index)?;
    let ti_rep_tab = check_tab_account(pid, ctx.liquidati_repayment_tab_account, rep_id,
        ctx.repayment_sub_market_owner, m.repayment_sub_market_index, ctx.liquidati_account_owner,
        args.liquidati_account_index)?;
    let ti_liq_tab = check_tab_account(pid, ctx.liquidati_liquidation_tab_account, liq_id,
        ctx.liquidation_sub_market_owner, m.liquidation_sub_market_index, ctx.liquidati_account_owner,
        args.liquidati_account_index)?;
    let ti_rep_st = check_statement_account(pid, ctx.liquidati_repayment_monthly_statement_account,
        &ctx.lending_protocol, rep_id, ctx.repayment_sub_market_owner, m.repayment_sub_market_index,
        ctx.liquidati_account_owner, args.liquidati_account_index)?;
    let ti_liq_st = check_statement_account(pid, ctx.liquidati_liquidation_monthly_statement_account,
        &ctx.lending_protocol, liq_id, ctx.liquidation_sub_market_owner, m.liquidation_sub_market_index,
        ctx.liquidati_account_owner, args.liquidati_account_index)?;
    Ok(TwoMarketAccounts {
        stats: stats,
        rep_sm: rep_sm,
        liq_sm: liq_sm,
        ti_rep_tab: ti_rep_tab,
        ti_liq_tab: ti_liq_tab,
        ti_rep_st: ti_rep_st,
        ti_liq_st: ti_liq_st,
    })
}

/// The liquidator's accounts of a liquidation between two token reserves: lending
/// account, then the tab in each token, then the statement of each, set up when new.
pub open spec fn spec_cross_liquidator_setup(
    c: LiquidateAccount,
    m: SubMarketPair,
    a: LiquidationArgs,
    account_name: Option<String>,
    look_up_table_address: Option<Pubkey>,
) -> Outcome<(LendingUserAccount, LendingUserTabAccount, LendingUserTabAccount, LendingUserMonthlyStatementAccount,
    LendingUserMonthlyStatementAccount)> {
    let rep_id = c.repayment_token_reserve.token_id;
    let liq_id = c.liquidation_token_reserve.token_id;
    match spec_ensure_user_account(c.liquidator_lending_account, account_name, "Generic Liquidator"@,
        look_up_table_address, c.liquidator_lending_account_bump, c.signer, a.liquidator_account_index) {
        Outcome::Fail(e) => Outcome::Fail(e),
        Outcome::Abort => Outcome::Abort,
        Outcome::Done(ua1) => match spec_ensure_tab(ua1, c.liquidator_repayment_tab_account, c.lending_protocol,
            c.liquidator_repayment_tab_account_bump, rep_id, c.repayment_sub_market_owner,
            m.repayment_sub_market_index, c.signer, a.liquidator_account_index) {
            Outcome::Fail(e) => Outcome::Fail(e),
            Outcome::Abort => Outcome::Abort,
            Outcome::Done(p) => match spec_ensure_tab(p.0, c.liquidator_liquidation_tab_account, c.lending_protocol,
                c.liquidator_liquidation_tab_account_bump, liq_id, c.liquidation_sub_market_owner,
                m.liquidation_sub_market_index, c.signer, a.liquidator_account_index) {
                Outcome::Fail(e) => Outcome::Fail(e),
                Outcome::Abort => Outcome::Abort,
                Outcome::Done(q) => Outcome::Done((
                    q.0,
                    p.1,
                    q.1,
                    spec_ensure_statement(c.liquidator_repayment_monthly_statement_account, p.1, c.lending_protocol,
                        c.liquidator_repayment_monthly_statement_account_bump, rep_id, c.repayment_sub_market_owner,
                        m.repayment_sub_market_index, c.signer, a.liquidator_account_index),
                    spec_ensure_statement(c.liquidator_liquidation_monthly_statement_account, q.1, c.lending_protocol,
                        c.liquidator_liquidation_monthly_statement_account_bump, liq_id,
                        c.liquidation_sub_market_owner, m.liquidation_sub_market_index, c.signer,
                        a.liquidator_account_index),
                )),
            },
        },
    }
}

/// Sets up the liquidator's accounts (see `spec_cross_liquidator_setup`).
fn cross_liquidator_setup(
    c: &mut LiquidateAccount,
    m: SubMarketPair,
    args: LiquidationArgs,
    account_name: Option<String>,
    look_up_table_address: Option<Pubkey>,
) -> (r: Result<(), LendingError>)
    requires
        !(spec_cross_liquidator_setup(*old(c), m, args, account_name, look_up_table_address) is Abort),
    ensures
        match spec_cross_liquidator_setup(*old(c), m, args, account_name, look_up_table_address) {
            Outcome::Done(p) => r is Ok && same_user_account(final(c).liquidator_lending_account, p.0)
                && *final(c) == (LiquidateAccount {
                    liquidator_lending_account: final(c).liquidator_lending_account,
                    liquidator_repayment_tab_account: p.1,
                    liquidator_liquidation_tab_account: p.2,
                    liquidator_repayment_monthly_statement_account: p.3,
                    liquidator_liquidation_monthly_statement_account: p.4,
                    ..*old(c)
                }),
            Outcome::Fail(e) => r matches Err(f) && f == e,
            Outcome::Abort => false,
        },
{
    let rep_id = c.repayment_token_reserve.token_id;
    let liq_id = c.liquidation_token_reserve.token_id;
    ensure_lending_user_account(&mut c.liquidator_lending_account, account_name, "Generic Liquidator",
        look_up_table_address, c.liquidator_lending_account_bump, c.signer, args.liquidator_account_index)?;
    ensure_lending_user_tab_account(&mut c.liquidator_lending_account, &mut c.liquidator_repayment_tab_account,
        &c.lending_protocol, c.liquidator_repayment_tab_account_bump, rep_id, c.repayment_sub_market_owner,
        m.repayment_sub_market_index, c.signer, args.liquidator_account_index)?;
    ensure_lending_user_tab_account(&mut c.liquidator_lending_account, &mut c.liquidator_liquidation_tab_account,
        &c.lending_protocol, c.liquidator_liquidation_tab_account_bump, liq_id, c.liquidation_sub_market_owner,
        m.liquidation_sub_market_index, c.signer, args.liquidator_account_index)?;
    ensure_monthly_statement(&mut c.liquidator_repayment_monthly_statement_account,
        &c.liquidator_repayment_tab_account, &c.lending_protocol,
        c.liquidator_repayment_monthly_statement_account_bump, rep_id, c.repayment_sub_market_owner,
        m.repayment_sub_market_index, c.signer, args.liquidator_account_index);
    ensure_monthly_statement(&mut c.liquidator_liquidation_monthly_statement_account,
        &c.liquidator_liquidation_tab_account, &c.lending_protocol,
        c.liquidator_liquidation_monthly_statement_account_bump, liq_id, c.liquidation_sub_market_owner,
        m.liquidation_sub_market_index, c.signer, args.liquidator_account_index);
    Ok(())
}

/// The booking of a liquidation between two token reserves, once the liquidator's
/// accounts are set up and settled: the repayment in the repayment reserve, the
/// seizure in the liquidation reserve, the oracle account checked, one rate update per
/// reserve, and the activity records.
pub open spec fn spec_cross_book(
    c: LiquidateAccount,
    x: TwoMarketAccounts,
    validator: OraclePriceValidator,
    rep_sm: SubMarket,
    liq_sm: SubMarket,
    ra: u64,
    bonus: u64,
    fee: u64,
    send_reward_to_wallet: bool,
) -> Outcome<(LiquidateAccount, Effects)> {
    match spec_book_repayment(c.repayment_token_reserve, rep_sm, x.ti_rep_tab.account,
        c.liquidator_repayment_tab_account, x.ti_rep_st.account, c.liquidator_repayment_monthly_statement_account,
        ra) {
        Outcome::Fail(e) => Outcome::Fail(e),
        Outcome::Abort => Outcome::Abort,
        Outcome::Done(b) => match spec_book_seizure(c.liquidation_token_reserve, liq_sm, x.ti_liq_tab.account,
            c.liquidator_liquidation_tab_account, x.ti_liq_st.account,
            c.liquidator_liquidation_monthly_statement_account, bonus, fee, send_reward_to_wallet) {
            Outcome::Fail(e) => Outcome::Fail(e),
            Outcome::Abort => Outcome::Abort,
            Outcome::Done(d) => match spec_oracle_check(c.oracle_account, validator.address) {
                Err(e) => Outcome::Fail(e),
                Ok(_) => if x.stats.account.liquidations + 1 > u128::MAX || !rates_computable(b.0)
                    || !rates_computable(d.0) {
                    Outcome::Abort
                } else {
                    let y = spec_rates_and_sync2(b.0, b.1, b.2, b.3);
                    let z = spec_rates_and_sync2(d.0, d.1, d.2, d.3);
                    let liq = (bonus + fee) as u64;
                    let rts = y.0.last_lending_activity_time_stamp;
                    let lts = z.0.last_lending_activity_time_stamp;
                    Outcome::Done((
                        LiquidateAccount {
                            repayment_token_reserve: stamp_reserve(y.0, ra, ACTIVITY_REPAY),
                            liquidation_token_reserve: stamp_reserve(z.0, liq, ACTIVITY_LIQUIDATE),
                            liquidator_repayment_tab_account: y.3,
                            liquidator_liquidation_tab_account: z.3,
                            liquidator_repayment_monthly_statement_account: stamp_statement(b.5, ra, ACTIVITY_REPAY,
                                rts),
                            liquidator_liquidation_monthly_statement_account: stamp_statement(d.5, liq,
                                ACTIVITY_LIQUIDATE, lts),
                            lending_stats: Some(Keyed {
                                key: x.stats.key,
                                account: LendingStats {
                                    liquidations: (x.stats.account.liquidations + 1) as u128,
                                    ..x.stats.account
                                },
                            }),
                            repayment_sub_market: Some(Keyed { key: x.rep_sm.key,
                                account: stamp_sub_market(y.1, ra, ACTIVITY_REPAY, rts) }),
                            liquidation_sub_market: Some(Keyed { key: x.liq_sm.key,
                                account: stamp_sub_market(z.1, liq, ACTIVITY_LIQUIDATE, lts) }),
                            liquidati_repayment_tab_account: Some(Keyed { key: x.ti_rep_tab.key, account: y.2 }),
                            liquidati_liquidation_tab_account: Some(Keyed { key: x.ti_liq_tab.key, account: z.2 }),
                            liquidati_repayment_monthly_statement_account: Some(Keyed { key: x.ti_rep_st.key,
                                account: stamp_statement(b.4, ra, ACTIVITY_REPAY, rts) }),
                            liquidati_liquidation_monthly_statement_account: Some(Keyed { key: x.ti_liq_st.key,
                                account: stamp_statement(d.4, liq, ACTIVITY_LIQUIDATE, lts) }),
                            ..c
                        },
                        Effects {
                            into_reserve: Some(ra),
                            out_of_reserve: if send_reward_to_wallet { Some(bonus) } else { None },
                            refund_oracle_fees: true,
                        },
                    ))
                },
            },
        },
    }
}

/// Books a liquidation between two token reserves (see `spec_cross_book`).
#[verifier::rlimit(60)]
fn cross_book(
    ctx: LiquidateAccount,
    x: TwoMarketAccounts,
    validator: OraclePriceValidator,
    rep_sm: SubMarket,
    liq_sm: SubMarket,
    ra: u64,
    bonus: u64,
    fee: u64,
    send_reward_to_wallet: bool,
) -> (r: Result<(LiquidateAccount, Effects), LendingError>)
    requires
        !(spec_cross_book(ctx, x, validator, rep_sm, liq_sm, ra, bonus, fee, send_reward_to_wallet) is Abort),
    ensures
        match spec_cross_book(ctx, x, validator, rep_sm, liq_sm, ra, bonus, fee, send_reward_to_wallet) {
            Outcome::Done(p) => r matches Ok(q) && q.0 == p.0 && q.1 == p.1,
            Outcome::Fail(e) => r matches Err(f) && f == e,
            Outcome::Abort => false,
        },
{
    let mut c = ctx;
    let mut rep_sm = rep_sm;
    let mut liq_sm = liq_sm;
    let mut ti_rep_tab = x.ti_rep_tab.account;
    let mut ti_liq_tab = x.ti_liq_tab.account;
    let mut ti_rep_st = x.ti_rep_st.account;
    let mut ti_liq_st = x.ti_liq_st.account;
    let mut lending_stats = x.stats.account;
    book_repayment(&mut c.repayment_token_reserve, &mut rep_sm, &mut ti_rep_tab,
        &mut c.liquidator_repayment_tab_account, &mut ti_rep_st, &mut c.liquidator_repayment_monthly_statement_account,
        ra);
    book_seizure(&mut c.liquidation_token_reserve, &mut liq_sm, &mut ti_liq_tab,
        &mut c.liquidator_liquidation_tab_account, &mut ti_liq_st,
        &mut c.liquidator_liquidation_monthly_statement_account, bonus, fee, send_reward_to_wallet);
    check_oracle_account(c.oracle_account, validator.address)?;
    lending_stats.liquidations = lending_stats.liquidations + 1;
    rates_and_sync2(&mut c.repayment_token_reserve, &mut rep_sm, &mut ti_rep_tab,
        &mut c.liquidator_repayment_tab_account);
    rates_and_sync2(&mut c.liquidation_token_reserve, &mut liq_sm, &mut ti_liq_tab,
        &mut c.liquidator_liquidation_tab_account);

    let liquidation_amount = bonus + fee;
    let rts = c.repayment_token_reserve.last_lending_activity_time_stamp;
    let lts = c.liquidation_token_reserve.last_lending_activity_time_stamp;
    c.repayment_token_reserve.last_lending_activity_amount = ra;
    c.repayment_token_reserve.last_lending_activity_type = ACTIVITY_REPAY;
    c.liquidation_token_reserve.last_lending_activity_amount = liquidation_amount;
    c.liquidation_token_reserve.last_lending_activity_type = ACTIVITY_LIQUIDATE;
    rep_sm.last_lending_activity_amount = ra;
    rep_sm.last_lending_activity_type = ACTIVITY_REPAY;
    rep_sm.last_lending_activity_time_stamp = rts;
    liq_sm.last_lending_activity_amount = liquidation_amount;
    liq_sm.last_lending_activity_type = ACTIVITY_LIQUIDATE;
    liq_sm.last_lending_activity_time_stamp = lts;
    ti_rep_st.last_lending_activity_amount = ra;
    ti_rep_st.last_lending_activity_type = ACTIVITY_REPAY;
    ti_rep_st.last_lending_activity_time_stamp = rts;
    ti_liq_st.last_lending_activity_amount = liquidation_amount;
    ti_liq_st.last_lending_activity_type = ACTIVITY_LIQUIDATE;
    ti_liq_st.last_lending_activity_time_stamp = lts;
    c.liquidator_repayment_monthly_statement_account.last_lending_activity_amount = ra;
    c.liquidator_repayment_monthly_statement_account.last_lending_activity_type = ACTIVITY_REPAY;
    c.liquidator_repayment_monthly_statement_account.last_lending_activity_time_stamp = rts;
    c.liquidator_liquidation_monthly_statement_account.last_lending_activity_amount = liquidation_amount;
    c.liquidator_liquidation_monthly_statement_account.last_lending_activity_type = ACTIVITY_LIQUIDATE;
    c.liquidator_liquidation_monthly_statement_account.last_lending_activity_time_stamp = lts;

    c.lending_stats = Some(Keyed { key: x.stats.key, account: lending_stats });
    c.repayment_sub_market = Some(Keyed { key: x.rep_sm.key, account: rep_sm });
    c.liquidation_sub_market = Some(Keyed { key: x.liq_sm.key, account: liq_sm });
    c.liquidati_repayment_tab_account = Some(Keyed { key: x.ti_rep_tab.key, account: ti_rep_tab });
    c.liquidati_liquidation_tab_account = Some(Keyed { key: x.ti_liq_tab.key, account: ti_liq_tab });
    c.liquidati_repayment_monthly_statement_account = Some(Keyed { key: x.ti_rep_st.key, account: ti_rep_st });
    c.liquidati_liquidation_monthly_statement_account = Some(Keyed { key: x.ti_liq_st.key, account: ti_liq_st });
    Ok((c, Effects {
        into_reserve: Some(ra),
        out_of_reserve: if send_reward_to_wallet { Some(bonus) } else { None },
        refund_oracle_fees: true,
    }))
}

/// The liquidator's side of a liquidation between two token reserves, once the terms
/// are known: accounts set up, interest settled on both tabs, the collateral priced in
/// the liquidation token and seized, then booked.
pub open spec fn spec_cross_settle(
    c: LiquidateAccount,
    m: SubMarketPair,
    a: LiquidationArgs,
    account_name: Option<String>,
    look_up_table_address: Option<Pubkey>,
    validator: OraclePriceValidator,
    liquidation_price: Option<u128>,
    x: TwoMarketAccounts,
    repayment_value: u128,
    ra: u64,
) -> Outcome<(LiquidateAccount, Effects)> {
    let liq_tr = c.liquidation_token_reserve;
    match spec_cross_liquidator_setup(c, m, a, account_name, look_up_table_address) {
        Outcome::Fail(e) => Outcome::Fail(e),
        Outcome::Abort => Outcome::Abort,
        Outcome::Done(u) => match spec_step_settle_tab(c.repayment_token_reserve, x.rep_sm.account, u.1, u.3) {
            Outcome::Fail(e) => Outcome::Fail(e),
            Outcome::Abort => Outcome::Abort,
            Outcome::Done(s1) => match spec_step_settle_tab(liq_tr, x.liq_sm.account, u.2, u.4) {
                Outcome::Fail(e) => Outcome::Fail(e),
                Outcome::Abort => Outcome::Abort,
                Outcome::Done(s2) => match liquidation_price {
                    None => Outcome::Fail(LendingError::OraclePriceNotFound),
                    Some(price) => if liq_tr.token_decimal_amount > 38 {
                        Outcome::Abort
                    } else {
                        match spec_seized(repayment_value, pow10(liq_tr.token_decimal_amount as nat), price,
                            x.ti_liq_tab.account.deposited_amount) {
                            Outcome::Fail(e) => Outcome::Fail(e),
                            Outcome::Abort => Outcome::Abort,
                            Outcome::Done(z) => {
                                let c1 = LiquidateAccount {
                                    repayment_token_reserve: s1.0,
                                    liquidation_token_reserve: s2.0,
                                    liquidator_repayment_tab_account: s1.2,
                                    liquidator_liquidation_tab_account: s2.2,
                                    liquidator_repayment_monthly_statement_account: s1.3,
                                    liquidator_liquidation_monthly_statement_account: s2.3,
                                    ..c
                                };
                                match spec_cross_book(c1, x, validator, s1.1, s2.1, ra, z.0, z.1,
                                    a.send_reward_to_wallet) {
                                    Outcome::Fail(e) => Outcome::Fail(e),
                                    Outcome::Abort => Outcome::Abort,
                                    Outcome::Done(p) => Outcome::Done((
                                        LiquidateAccount { liquidator_lending_account: u.0, ..p.0 },
                                        p.1,
                                    )),
                                }
                            },
                        }
                    },
                },
            },
        },
    }
}

/// The liquidator's side of a liquidation between two token reserves (see
/// `spec_cross_settle`).
#[verifier::rlimit(60)]
fn cross_settle(
    ctx: LiquidateAccount,
    m: SubMarketPair,
    args: LiquidationArgs,
    account_name: Option<String>,
    look_up_table_address: Option<Pubkey>,
    validator: OraclePriceValidator,
    liquidation_price: Option<u128>,
    x: TwoMarketAccounts,
    repayment_value: u128,
    ra: u64,
) -> (r: Result<(LiquidateAccount, Effects), LendingError>)
    requires
        !(spec_cross_settle(ctx, m, args, account_name, look_up_table_address, validator, liquidation_price, x,
            repayment_value, ra) is Abort),
    ensures
        match spec_cross_settle(ctx, m, args, account_name, look_up_table_address, validator, liquidation_price, x,
            repayment_value, ra) {
            Outcome::Done(p) => r matches Ok(q) && same_la(q.0, p.0) && q.1 == p.1,
            Outcome::Fail(e) => r matches Err(f) && f == e,
            Outcome::Abort => false,
        },
{
    let mut c = ctx;
    let mut held = c.liquidator_lending_account.duplicate();
    cross_liquidator_setup(&mut c, m, args, account_name, look_up_table_address)?;
    std::mem::swap(&mut c.liquidator_lending_account, &mut held);
    let mut rep_sm = x.rep_sm.account;
    let mut liq_sm = x.liq_sm.account;
    settle_tab(&mut c.repayment_token_reserve, &mut rep_sm, &mut c.liquidator_repayment_tab_account,
        &mut c.liquidator_repayment_monthly_statement_account)?;
    settle_tab(&mut c.liquidation_token_reserve, &mut liq_sm, &mut c.liquidator_liquidation_tab_account,
        &mut c.liquidator_liquidation_monthly_statement_account)?;
    let price = match liquidation_price {
        Some(p) => p,
        None => { return Err(LendingError::OraclePriceNotFound); },
    };
    let conversion = token_conversion_number(c.liquidation_token_reserve.token_decimal_amount);
    let (bonus, fee) = seized_collateral(repayment_value, conversion, price, x.ti_liq_tab.account.deposited_amount);
    let send = args.send_reward_to_wallet;
    let (mut out, effects) = cross_book(c, x, validator, rep_sm, liq_sm, ra, bonus, fee, send)?;
    std::mem::swap(&mut out.liquidator_lending_account, &mut held);
    Ok((out, effects))
}

/// A handed-in lending account with its total borrowed value replaced by `total`.
pub open spec fn with_total_borrowed(x: Option<Keyed<LendingUserAccount>>, total: u128)
    -> Option<Keyed<LendingUserAccount>> {
    match x {
        Some(k) => Some(Keyed { key: k.key, account: LendingUserAccount { total_borrowed_usd_value: total, ..k.account } }),
        None => None,
    }
}

/// A liquidation between two token reserves once its extra accounts are checked: the
/// repayment token's price must be fresh and known; the terms are set by it and by the
/// liquidated user's totals; then the liquidator repays and seizes, the collateral
/// priced in the liquidation token, and the liquidated user's total borrowed value
/// becomes the one the terms set (lowered by the value repaid when an insolvent
/// account's whole debt in the repayment tab is paid off).
pub open spec fn spec_cross_priced(
    c: LiquidateAccount,
    m: SubMarketPair,
    a: LiquidationArgs,
    account_name: Option<String>,
    look_up_table_address: Option<Pubkey>,
    liquidati: LendingUserAccount,
    validator: OraclePriceValidator,
    x: TwoMarketAccounts,
) -> Outcome<(LiquidateAccount, Effects)> {
    let rep_tr = c.repayment_token_reserve;
    match c.temp_price_account {
        None => Outcome::Fail(LendingError::MissingRemainingAccount),
        Some(temp) => match spec_read_price(temp.account, c.clock_slot, rep_tr.token_id) {
            Err(e) => Outcome::Fail(e),
            Ok(price) => if rep_tr.token_decimal_amount > 38 {
                Outcome::Abort
            } else {
                match spec_liquidation_terms(liquidati.total_deposited_usd_value,
                    liquidati.total_borrowed_usd_value, x.ti_rep_tab.account.borrowed_amount, price,
                    pow10(rep_tr.token_decimal_amount as nat), a.paying_off_insolvent_account, a.repay_max,
                    a.amount_to_repay) {
                    Outcome::Fail(e) => Outcome::Fail(e),
                    Outcome::Abort => Outcome::Abort,
                    Outcome::Done(t) => match spec_cross_settle(c, m, a, account_name, look_up_table_address,
                        validator, spec_price_lookup(temp.account.data@, c.liquidation_token_reserve.token_id), x,
                        t.1, t.0) {
                        Outcome::Done(p) => Outcome::Done((LiquidateAccount {
                            liquidati_lending_account: with_total_borrowed(p.0.liquidati_lending_account, t.2),
                            ..p.0
                        }, p.1)),
                        Outcome::Fail(e) => Outcome::Fail(e),
                        Outcome::Abort => Outcome::Abort,
                    },
                }
            },
        },
    }
}

/// A liquidation between two token reserves once its extra accounts are checked (see
/// `spec_cross_priced`).
fn cross_priced(
    ctx: LiquidateAccount,
    m: SubMarketPair,
    args: LiquidationArgs,
    account_name: Option<String>,
    look_up_table_address: Option<Pubkey>,
    liquidati: &LendingUserAccount,
    validator: OraclePriceValidator,
    x: TwoMarketAccounts,
) -> (r: Result<(LiquidateAccount, Effects), LendingError>)
    requires
        !(spec_cross_priced(ctx, m, args, account_name, look_up_table_address, *liquidati, validator, x) is Abort),
    ensures
        match spec_cross_priced(ctx, m, args, account_name, look_up_table_address, *liquidati, validator, x) {
            Outcome::Done(p) => r matches Ok(q) && same_la(q.0, p.0) && q.1 == p.1,
            Outcome::Fail(e) => r matches Err(f) && f == e,
            Outcome::Abort => false,
        },
{
    let price = read_price(&ctx.temp_price_account, ctx.clock_slot, ctx.repayment_token_reserve.token_id)?;
    let conversion = token_conversion_number(ctx.repayment_token_reserve.token_decimal_amount);
    proof { crate::oracle::lemma_pow10_positive(ctx.repayment_token_reserve.token_decimal_amount as nat); }
    let (ra, rv, nb) = liquidation_terms(liquidati.total_deposited_usd_value, liquidati.total_borrowed_usd_value,
        x.ti_rep_tab.account.borrowed_amount, price, conversion, args.paying_off_insolvent_account, args.repay_max,
        args.amount_to_repay)?;
    let liquidation_price = match &ctx.temp_price_account {
        Some(k) => match get_verified_token_price(k.account.data.as_slice(), ctx.liquidation_token_reserve.token_id) {
            Ok(p) => Some(p),
            Err(_) => None,
        },
        None => None,
    };
    let (mut out, effects) = cross_settle(ctx, m, args, account_name, look_up_table_address, validator,
        liquidation_price, x, rv, ra)?;
    match &mut out.liquidati_lending_account {
        Some(k) => { k.account.total_borrowed_usd_value = nb; },
        None => {},
    }
    Ok((out, effects))
}

/// A liquidation between two token reserves: the liquidated user's lending account is
/// checked and its health must be from this slot; the reserves' token accounts, the
/// price validator, the price data and the liquidated user's accounts are checked; then
/// the terms are set and the liquidator repays and seizes (see `spec_cross_priced`).
/// When an insolvent account's whole debt in the repayment tab is repaid, its total
/// borrowed value falls by the value repaid (not below zero), so that it can withdraw
/// without a fresh health check.
pub open spec fn spec_liquidate_account(
    c: LiquidateAccount,
    m: SubMarketPair,
    a: LiquidationArgs,
    account_name: Option<String>,
    look_up_table_address: Option<Pubkey>,
) -> Outcome<(LiquidateAccount, Effects)> {
    let pid = c.program_id;
    match spec_check_liquidati(pid, c.liquidati_lending_account, c.liquidati_account_owner, a.liquidati_account_index) {
        Outcome::Fail(e) => Outcome::Fail(e),
        Outcome::Abort => Outcome::Abort,
        Outcome::Done(ti) => if ti.account.last_health_update_clock_slot != c.clock_slot {
            Outcome::Fail(LendingError::StaleTokenReserveOrLendingUser)
        } else {
            match spec_check_atas(c) {
                Err(e) => Outcome::Fail(e),
                Ok(_) => match spec_check_validator(pid, c.price_validator) {
                    Outcome::Fail(e) => Outcome::Fail(e),
                    Outcome::Abort => Outcome::Abort,
                    Outcome::Done(v) => match spec_check_temp(pid, c.temp_price_account, c.signer) {
                        Outcome::Fail(e) => Outcome::Fail(e),
                        Outcome::Abort => Outcome::Abort,
                        Outcome::Done(temp) => match spec_check_cross_markets(c, m, a) {
                            Outcome::Fail(e) => Outcome::Fail(e),
                            Outcome::Abort => Outcome::Abort,
                            Outcome::Done(x) => spec_cross_priced(c, m, a, account_name, look_up_table_address,
                                ti.account, v.account, x),
                        },
                    },
                },
            }
        },
    }
}

/// Liquidates part of a user's position by repaying a debt in one token reserve and
/// seizing collateral in another (see `spec_liquidate_account`).
pub fn liquidate_account(
    ctx: LiquidateAccount,
    sub_markets: SubMarketPair,
    args: LiquidationArgs,
    account_name: Option<String>,
    look_up_table_address: Option<Pubkey>,
) -> (r: Result<(LiquidateAccount, Effects), LendingError>)
    requires
        !(spec_liquidate_account(ctx, sub_markets, args, account_name, look_up_table_address) is Abort),
    ensures
        match spec_liquidate_account(ctx, sub_markets, args, account_name, look_up_table_address) {
            Outcome::Done(p) => r matches Ok(q) && same_la(q.0, p.0) && q.1 == p.1,
            Outcome::Fail(e) => r matches Err(f) && f == e,
            Outcome::Abort => false,
        },
{
    let m = sub_markets;
    let pid = ctx.program_id;
    let liquidati = check_liquidati(pid, &ctx.liquidati_lending_account, ctx.liquidati_account_owner,
        args.liquidati_account_index)?;
    if liquidati.last_health_update_clock_slot != ctx.clock_slot {
        return Err(LendingError::StaleTokenReserveOrLendingUser);
    }
    check_atas(&ctx)?;
    let validator = check_validator(pid, ctx.price_validator)?;
    check_temp_price_account(pid, &ctx.temp_price_account, ctx.signer)?;
    let x = check_cross_markets(&ctx, m, args)?;
    cross_priced(ctx, m, args, account_name, look_up_table_address, &liquidati, validator, x)
}

} // verus!
