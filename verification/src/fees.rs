use vstd::prelude::*;
use crate::errors::LendingError;
use crate::structs::{
    Pubkey, keys_equal, LendingProtocol, LendingStats, SolvencyTreasurer, LiquidationTreasurer, TokenReserve,
    SubMarket, LendingUserAccount, LendingUserTabAccount, LendingUserMonthlyStatementAccount,
};
use crate::steps::{
    Outcome, same_user_account, spec_ensure_user_account, spec_ensure_tab, spec_ensure_statement, spec_step_refresh,
    spec_step_rates_and_sync, spec_record_activity, ensure_lending_user_account, ensure_lending_user_tab_account,
    ensure_monthly_statement, refresh_tab, rates_and_sync, record_activity, Effects, ACTIVITY_DEPOSIT,
    ACTIVITY_COLLECT_SUB_MARKET_FEES, ACTIVITY_COLLECT_SOLVENCY_FEES, ACTIVITY_COLLECT_LIQUIDATION_FEES,
};

verus! {

/// What an instruction that moves no tokens leaves to its caller.
pub open spec fn no_effects() -> Effects {
    Effects { into_reserve: None, out_of_reserve: None, refund_oracle_fees: false }
}

/// The accounts and readings a fee claim into the claimer's own tab works on: a sub
/// market's fees claimed by its fee collector, or a reserve's liquidation fees claimed
/// by the liquidation treasurer.
pub struct ClaimSubMarketFees {
    pub signer: Pubkey,
    pub sub_market_owner: Pubkey,
    pub lending_protocol: LendingProtocol,
    pub lending_stats: LendingStats,
    pub token_reserve: TokenReserve,
    pub sub_market: SubMarket,
    pub lending_user_account: LendingUserAccount,
    pub lending_user_tab_account: LendingUserTabAccount,
    pub lending_user_monthly_statement_account: LendingUserMonthlyStatementAccount,
    pub lending_user_account_bump: u8,
    pub lending_user_tab_account_bump: u8,
    pub lending_user_monthly_statement_account_bump: u8,
    /// The cluster's unix time stamp.
    pub time_stamp: u64,
}

/// A reserve's liquidation fees are claimed with the same accounts as a sub market's
/// fees; the treasurer's account is handed in beside them.
pub type ClaimLiquidationFees = ClaimSubMarketFees;

/// Two fee claim contexts agree, the user account names compared by their characters.
pub open spec fn same_claim(a: ClaimSubMarketFees, b: ClaimSubMarketFees) -> bool {
    &&& same_user_account(a.lending_user_account, b.lending_user_account)
    &&& a == (ClaimSubMarketFees { lending_user_account: a.lending_user_account, ..b })
}

/// The claimer's account, tab and statement set up when new (under `default_name`),
/// then the reserve's indexes advanced and the tab's interest settled.
pub open spec fn spec_claim_prelude(
    c: ClaimSubMarketFees,
    sub_market_index: u16,
    user_account_index: u8,
    default_name: Seq<char>,
    account_name: Option<String>,
    look_up_table_address: Option<Pubkey>,
) -> Outcome<(LendingUserAccount, (TokenReserve, SubMarket, LendingUserTabAccount, LendingUserMonthlyStatementAccount))> {
    let tr = c.token_reserve;
    match spec_ensure_user_account(c.lending_user_account, account_name, default_name, look_up_table_address,
        c.lending_user_account_bump, c.signer, user_account_index) {
        Outcome::Fail(e) => Outcome::Fail(e),
        Outcome::Abort => Outcome::Abort,
        Outcome::Done(ua1) => match spec_ensure_tab(ua1, c.lending_user_tab_account, c.lending_protocol,
            c.lending_user_tab_account_bump, tr.token_id, c.sub_market_owner, sub_market_index, c.signer,
            user_account_index) {
            Outcome::Fail(e) => Outcome::Fail(e),
            Outcome::Abort => Outcome::Abort,
            Outcome::Done(p) => {
                let st1 = spec_ensure_statement(c.lending_user_monthly_statement_account, p.1, c.lending_protocol,
                    c.lending_user_monthly_statement_account_bump, tr.token_id, c.sub_market_owner, sub_market_index,
                    c.signer, user_account_index);
                match spec_step_refresh(tr, c.sub_market, p.1, st1, c.time_stamp) {
                    Outcome::Fail(e) => Outcome::Fail(e),
                    Outcome::Abort => Outcome::Abort,
                    Outcome::Done(s) => Outcome::Done((p.0, s)),
                }
            },
        },
    }
}

/// Sets up the claimer's accounts and settles interest (see `spec_claim_prelude`).
fn claim_prelude(
    c: &mut ClaimSubMarketFees,
    sub_market_index: u16,
    user_account_index: u8,
    default_name: &str,
    account_name: Option<String>,
    look_up_table_address: Option<Pubkey>,
) -> (r: Result<(), LendingError>)
    requires
        !(spec_claim_prelude(*old(c), sub_market_index, user_account_index, default_name@, account_name,
            look_up_table_address) is Abort),
    ensures
        match spec_claim_prelude(*old(c), sub_market_index, user_account_index, default_name@, account_name,
            look_up_table_address) {
            Outcome::Done(p) => r is Ok && same_user_account(final(c).lending_user_account, p.0)
                && *final(c) == (ClaimSubMarketFees {
                    lending_user_account: final(c).lending_user_account,
                    token_reserve: p.1.0,
                    sub_market: p.1.1,
                    lending_user_tab_account: p.1.2,
                    lending_user_monthly_statement_account: p.1.3,
                    ..*old(c)
                }),
            Outcome::Fail(e) => r matches Err(f) && f == e,
            Outcome::Abort => false,
        },
{
    let token_id = c.token_reserve.token_id;
    ensure_lending_user_account(&mut c.lending_user_account, account_name, default_name, look_up_table_address,
        c.lending_user_account_bump, c.signer, user_account_index)?;
    ensure_lending_user_tab_account(&mut c.lending_user_account, &mut c.lending_user_tab_account,
        &c.lending_protocol, c.lending_user_tab_account_bump, token_id, c.sub_market_owner, sub_market_index,
        c.signer, user_account_index)?;
    ensure_monthly_statement(&mut c.lending_user_monthly_statement_account, &c.lending_user_tab_account,
        &c.lending_protocol, c.lending_user_monthly_statement_account_bump, token_id, c.sub_market_owner,
        sub_market_index, c.signer, user_account_index);
    refresh_tab(&mut c.token_reserve, &mut c.sub_market, &mut c.lending_user_tab_account,
        &mut c.lending_user_monthly_statement_account, c.time_stamp)
}

/// Credits collected fees of `fees` to the claimer's tab: the reserve's, the sub
/// market's and the tab's deposits grow by them, the statement records the collection
/// (in its sub market fee or its liquidation fee column), the rates are recomputed, the
/// collection is counted and the activity recorded.
pub open spec fn spec_credit_fees(
    c: ClaimSubMarketFees,
    ua: LendingUserAccount,
    s: (TokenReserve, SubMarket, LendingUserTabAccount, LendingUserMonthlyStatementAccount),
    fees: u128,
    liquidation_fees: bool,
) -> Outcome<ClaimSubMarketFees> {
    let (tr, sm, tab, st) = s;
    let f = fees as u64;
    if tr.deposited_amount + fees > u128::MAX || sm.deposited_amount + fees > u128::MAX
        || tab.deposited_amount + f > u64::MAX
        || (!liquidation_fees && st.monthly_sub_market_fees_collected_amount + f > u64::MAX)
        || (liquidation_fees && st.monthly_liquidation_fees_collected_amount + f > u64::MAX)
        || c.lending_stats.fee_collections + 1 > u128::MAX {
        Outcome::Abort
    } else {
        let tab1 = LendingUserTabAccount { deposited_amount: (tab.deposited_amount + f) as u64, ..tab };
        let st1 = if liquidation_fees {
            LendingUserMonthlyStatementAccount {
                monthly_liquidation_fees_collected_amount: (st.monthly_liquidation_fees_collected_amount + f) as u64,
                snap_shot_balance_amount: tab1.deposited_amount,
                ..st
            }
        } else {
            LendingUserMonthlyStatementAccount {
                monthly_sub_market_fees_collected_amount: (st.monthly_sub_market_fees_collected_amount + f) as u64,
                snap_shot_balance_amount: tab1.deposited_amount,
                ..st
            }
        };
        match spec_step_rates_and_sync(
            TokenReserve { deposited_amount: (tr.deposited_amount + fees) as u128, ..tr },
            SubMarket { deposited_amount: (sm.deposited_amount + fees) as u128, ..sm },
            tab1,
        ) {
            Outcome::Fail(e) => Outcome::Fail(e),
            Outcome::Abort => Outcome::Abort,
            Outcome::Done(p) => {
                let activity = if liquidation_fees {
                    ACTIVITY_COLLECT_LIQUIDATION_FEES
                } else {
                    ACTIVITY_COLLECT_SUB_MARKET_FEES
                };
                let q = spec_record_activity(p.0, p.1, st1, f, activity);
                Outcome::Done(ClaimSubMarketFees {
                    lending_stats: LendingStats {
                        fee_collections: (c.lending_stats.fee_collections + 1) as u128,
                        ..c.lending_stats
                    },
                    token_reserve: if liquidation_fees {
                        TokenReserve { uncollected_liquidation_fees_amount: 0, ..q.0 }
                    } else {
                        q.0
                    },
                    sub_market: if liquidation_fees {
                        q.1
                    } else {
                        SubMarket { uncollected_sub_market_fees_amount: 0, ..q.1 }
                    },
                    lending_user_account: ua,
                    lending_user_tab_account: p.2,
                    lending_user_monthly_statement_account: q.2,
                    ..c
                })
            },
        }
    }
}

/// Credits collected fees to the claimer's tab (see `spec_credit_fees`).
fn credit_fees(c: &mut ClaimSubMarketFees, fees: u128, liquidation_fees: bool)
    requires
        !(spec_credit_fees(*old(c), old(c).lending_user_account, (old(c).token_reserve, old(c).sub_market,
            old(c).lending_user_tab_account, old(c).lending_user_monthly_statement_account), fees, liquidation_fees)
            is Abort),
    ensures
        spec_credit_fees(*old(c), old(c).lending_user_account, (old(c).token_reserve, old(c).sub_market,
            old(c).lending_user_tab_account, old(c).lending_user_monthly_statement_account), fees, liquidation_fees)
            == Outcome::Done(*final(c)),
{
    let f = fees as u64;
    c.token_reserve.deposited_amount = c.token_reserve.deposited_amount + fees;
    c.sub_market.deposited_amount = c.sub_market.deposited_amount + fees;
    c.lending_user_tab_account.deposited_amount = c.lending_user_tab_account.deposited_amount + f;
    if liquidation_fees {
        c.lending_user_monthly_statement_account.monthly_liquidation_fees_collected_amount =
            c.lending_user_monthly_statement_account.monthly_liquidation_fees_collected_amount + f;
    } else {
        c.lending_user_monthly_statement_account.monthly_sub_market_fees_collected_amount =
            c.lending_user_monthly_statement_account.monthly_sub_market_fees_collected_amount + f;
    }
    c.lending_user_monthly_statement_account.snap_shot_balance_amount = c.lending_user_tab_account.deposited_amount;
    rates_and_sync(&mut c.token_reserve, &mut c.sub_market, &mut c.lending_user_tab_account);
    c.lending_stats.fee_collections = c.lending_stats.fee_collections + 1;
    let activity = if liquidation_fees { ACTIVITY_COLLECT_LIQUIDATION_FEES } else { ACTIVITY_COLLECT_SUB_MARKET_FEES };
    record_activity(&mut c.token_reserve, &mut c.sub_market, &mut c.lending_user_monthly_statement_account, f,
        activity);
    if liquidation_fees {
        c.token_reserve.uncollected_liquidation_fees_amount = 0;
    } else {
        c.sub_market.uncollected_sub_market_fees_amount = 0;
    }
}

/// A sub market's fee collector claims its uncollected fees into its own tab in that
/// sub market: only the fee collector may; its accounts are set up when new (under the
/// name "Generic Sub Fee Claimer" by default); interest is settled first, so the fees
/// it adds are included; then the fees are credited (see `spec_credit_fees`).
pub open spec fn spec_claim_sub_market_fees(
    c: ClaimSubMarketFees,
    sub_market_index: u16,
    user_account_index: u8,
    account_name: Option<String>,
    look_up_table_address: Option<Pubkey>,
) -> Outcome<(ClaimSubMarketFees, Effects)> {
    if c.signer != c.sub_market.fee_collector_address {
        Outcome::Fail(LendingError::NotFeeCollector)
    } else {
        match spec_claim_prelude(c, sub_market_index, user_account_index, "Generic Sub Fee Claimer"@, account_name,
            look_up_table_address) {
            Outcome::Fail(e) => Outcome::Fail(e),
            Outcome::Abort => Outcome::Abort,
            Outcome::Done(p) => match spec_credit_fees(c, p.0, p.1, p.1.1.uncollected_sub_market_fees_amount, false) {
                Outcome::Fail(e) => Outcome::Fail(e),
                Outcome::Abort => Outcome::Abort,
                Outcome::Done(q) => Outcome::Done((q, no_effects())),
            },
        }
    }
}

/// Claims a sub market's uncollected fees into the fee collector's tab (see
/// `spec_claim_sub_market_fees`).
pub fn claim_sub_market_fees(
    ctx: ClaimSubMarketFees,
    sub_market_index: u16,
    user_account_index: u8,
    account_name: Option<String>,
    look_up_table_address: Option<Pubkey>,
) -> (r: Result<(ClaimSubMarketFees, Effects), LendingError>)
    requires
        !(spec_claim_sub_market_fees(ctx, sub_market_index, user_account_index, account_name, look_up_table_address)
            is Abort),
    ensures
        match spec_claim_sub_market_fees(ctx, sub_market_index, user_account_index, account_name,
            look_up_table_address) {
            Outcome::Done(p) => r matches Ok(q) && same_claim(q.0, p.0) && q.1 == p.1,
            Outcome::Fail(e) => r matches Err(f) && f == e,
            Outcome::Abort => false,
        },
{
    if !keys_equal(&ctx.signer, &ctx.sub_market.fee_collector_address) {
        return Err(LendingError::NotFeeCollector);
    }
    let mut c = ctx;
    claim_prelude(&mut c, sub_market_index, user_account_index, "Generic Sub Fee Claimer", account_name,
        look_up_table_address)?;
    let fees = c.sub_market.uncollected_sub_market_fees_amount;
    credit_fees(&mut c, fees, false);
    Ok((c, Effects { into_reserve: None, out_of_reserve: None, refund_oracle_fees: false }))
}

/// The liquidation treasurer claims a reserve's uncollected liquidation fees into its
/// own tab in a sub market: only the treasurer may; its accounts are set up when new
/// (under the name "HODL Treasury" by default); interest is settled; then the fees are
/// credited (see `spec_credit_fees`).
pub open spec fn spec_claim_liquidation_fees(
    c: ClaimLiquidationFees,
    treasurer: LiquidationTreasurer,
    sub_market_index: u16,
    user_account_index: u8,
    account_name: Option<String>,
    look_up_table_address: Option<Pubkey>,
) -> Outcome<(ClaimSubMarketFees, Effects)> {
    if c.signer != treasurer.address {
        Outcome::Fail(LendingError::NotLiquidationTreasurer)
    } else {
        match spec_claim_prelude(c, sub_market_index, user_account_index, "HODL Treasury"@, account_name,
            look_up_table_address) {
            Outcome::Fail(e) => Outcome::Fail(e),
            Outcome::Abort => Outcome::Abort,
            Outcome::Done(p) => match spec_credit_fees(c, p.0, p.1, p.1.0.uncollected_liquidation_fees_amount, true) {
                Outcome::Fail(e) => Outcome::Fail(e),
                Outcome::Abort => Outcome::Abort,
                Outcome::Done(q) => Outcome::Done((q, no_effects())),
            },
        }
    }
}

/// Claims a reserve's uncollected liquidation fees into the treasurer's tab (see
/// `spec_claim_liquidation_fees`).
pub fn claim_liquidation_fees(
    ctx: ClaimLiquidationFees,
    treasurer: LiquidationTreasurer,
    sub_market_index: u16,
    user_account_index: u8,
    account_name: Option<String>,
    look_up_table_address: Option<Pubkey>,
) -> (r: Result<(ClaimLiquidationFees, Effects), LendingError>)
    requires
        !(spec_claim_liquidation_fees(ctx, treasurer, sub_market_index, user_account_index, account_name,
            look_up_table_address) is Abort),
    ensures
        match spec_claim_liquidation_fees(ctx, treasurer, sub_market_index, user_account_index, account_name,
            look_up_table_address) {
            Outcome::Done(p) => r matches Ok(q) && same_claim(q.0, p.0) && q.1 == p.1,
            Outcome::Fail(e) => r matches Err(f) && f == e,
            Outcome::Abort => false,
        },
{
    if !keys_equal(&ctx.signer, &treasurer.address) {
        return Err(LendingError::NotLiquidationTreasurer);
    }
    let mut c = ctx;
    claim_prelude(&mut c, sub_market_index, user_account_index, "HODL Treasury", account_name,
        look_up_table_address)?;
    let fees = c.token_reserve.uncollected_liquidation_fees_amount;
    credit_fees(&mut c, fees, true);
    Ok((c, Effects { into_reserve: None, out_of_reserve: None, refund_oracle_fees: false }))
}

/// The accounts and readings a solvency insurance fee claim works on.
pub struct ClaimSolvencyInsuranceFees {
    pub signer: Pubkey,
    pub sub_market_owner: Pubkey,
    pub solvency_treasurer: SolvencyTreasurer,
    pub lending_protocol: LendingProtocol,
    pub lending_stats: LendingStats,
    pub token_reserve: TokenReserve,
    pub lending_user_account: LendingUserAccount,
    pub lending_user_tab_account: LendingUserTabAccount,
    pub lending_user_monthly_statement_account: LendingUserMonthlyStatementAccount,
    pub lending_user_account_bump: u8,
    pub lending_user_tab_account_bump: u8,
    pub lending_user_monthly_statement_account_bump: u8,
    /// The cluster's unix time stamp.
    pub time_stamp: u64,
}

/// Two solvency fee claim contexts agree, the user account names compared by their
/// characters.
pub open spec fn same_solvency_claim(a: ClaimSolvencyInsuranceFees, b: ClaimSolvencyInsuranceFees) -> bool {
    &&& same_user_account(a.lending_user_account, b.lending_user_account)
    &&& a == (ClaimSolvencyInsuranceFees { lending_user_account: a.lending_user_account, ..b })
}

/// The solvency treasurer claims a reserve's uncollected solvency insurance fees to its
/// wallet: only the treasurer may; its accounts are set up when new (under the name
/// "Solvency Treasury" by default); the fees (taken as 64 bits) leave the reserve; the
/// statement records them; the reserve's fees are cleared and the collection counted.
/// The reserve's deposits are not touched: these fees were never part of them.
pub open spec fn spec_claim_solvency_insurance_fees(
    c: ClaimSolvencyInsuranceFees,
    sub_market_index: u16,
    user_account_index: u8,
    account_name: Option<String>,
    look_up_table_address: Option<Pubkey>,
) -> Outcome<(ClaimSolvencyInsuranceFees, Effects)> {
    let tr = c.token_reserve;
    if c.signer != c.solvency_treasurer.address {
        Outcome::Fail(LendingError::NotSolvencyTreasurer)
    } else {
        match spec_ensure_user_account(c.lending_user_account, account_name, "Solvency Treasury"@,
            look_up_table_address, c.lending_user_account_bump, c.signer, user_account_index) {
            Outcome::Fail(e) => Outcome::Fail(e),
            Outcome::Abort => Outcome::Abort,
            Outcome::Done(ua1) => match spec_ensure_tab(ua1, c.lending_user_tab_account, c.lending_protocol,
                c.lending_user_tab_account_bump, tr.token_id, c.sub_market_owner, sub_market_index, c.signer,
                user_account_index) {
                Outcome::Fail(e) => Outcome::Fail(e),
                Outcome::Abort => Outcome::Abort,
                Outcome::Done(p) => {
                    let st = spec_ensure_statement(c.lending_user_monthly_statement_account, p.1, c.lending_protocol,
                        c.lending_user_monthly_statement_account_bump, tr.token_id, c.sub_market_owner,
                        sub_market_index, c.signer, user_account_index);
                    let amount = tr.uncollected_solvency_insurance_fees_amount as u64;
                    if st.monthly_solvency_insurance_fees_collected_amount + amount > u64::MAX
                        || c.lending_stats.fee_collections + 1 > u128::MAX {
                        Outcome::Abort
                    } else {
                        Outcome::Done((
                            ClaimSolvencyInsuranceFees {
                                lending_stats: LendingStats {
                                    fee_collections: (c.lending_stats.fee_collections + 1) as u128,
                                    ..c.lending_stats
                                },
                                token_reserve: TokenReserve {
                                    last_lending_activity_amount: amount,
                                    last_lending_activity_type: ACTIVITY_COLLECT_SOLVENCY_FEES,
                                    uncollected_solvency_insurance_fees_amount: 0,
                                    ..tr
                                },
                                lending_user_account: p.0,
                                lending_user_tab_account: p.1,
                                lending_user_monthly_statement_account: LendingUserMonthlyStatementAccount {
                                    monthly_solvency_insurance_fees_collected_amount:
                                        (st.monthly_solvency_insurance_fees_collected_amount + amount) as u64,
                                    last_lending_activity_amount: amount,
                                    last_lending_activity_type: ACTIVITY_COLLECT_SOLVENCY_FEES,
                                    last_lending_activity_time_stamp: c.time_stamp,
                                    ..st
                                },
                                ..c
                            },
                            Effects { into_reserve: None, out_of_reserve: Some(amount), refund_oracle_fees: false },
                        ))
                    }
                },
            },
        }
    }
}

/// Claims a reserve's uncollected solvency insurance fees to the treasurer's wallet
/// (see `spec_claim_solvency_insurance_fees`).
pub fn claim_solvency_insurance_fees(
    ctx: ClaimSolvencyInsuranceFees,
    sub_market_index: u16,
    user_account_index: u8,
    account_name: Option<String>,
    look_up_table_address: Option<Pubkey>,
) -> (r: Result<(ClaimSolvencyInsuranceFees, Effects), LendingError>)
    requires
        !(spec_claim_solvency_insurance_fees(ctx, sub_market_index, user_account_index, account_name,
            look_up_table_address) is Abort),
    ensures
        match spec_claim_solvency_insurance_fees(ctx, sub_market_index, user_account_index, account_name,
            look_up_table_address) {
            Outcome::Done(p) => r matches Ok(q) && same_solvency_claim(q.0, p.0) && q.1 == p.1,
            Outcome::Fail(e) => r matches Err(f) && f == e,
            Outcome::Abort => false,
        },
{
    if !keys_equal(&ctx.signer, &ctx.solvency_treasurer.address) {
        return Err(LendingError::NotSolvencyTreasurer);
    }
    let mut c = ctx;
    let token_id = c.token_reserve.token_id;
    ensure_lending_user_account(&mut c.lending_user_account, account_name, "Solvency Treasury",
        look_up_table_address, c.lending_user_account_bump, c.signer, user_account_index)?;
    ensure_lending_user_tab_account(&mut c.lending_user_account, &mut c.lending_user_tab_account,
        &c.lending_protocol, c.lending_user_tab_account_bump, token_id, c.sub_market_owner, sub_market_index,
        c.signer, user_account_index)?;
    ensure_monthly_statement(&mut c.lending_user_monthly_statement_account, &c.lending_user_tab_account,
        &c.lending_protocol, c.lending_user_monthly_statement_account_bump, token_id, c.sub_market_owner,
        sub_market_index, c.signer, user_account_index);
    let amount = c.token_reserve.uncollected_solvency_insurance_fees_amount as u64;
    c.lending_user_monthly_statement_account.monthly_solvency_insurance_fees_collected_amount =
        c.lending_user_monthly_statement_account.monthly_solvency_insurance_fees_collected_amount + amount;
    c.token_reserve.last_lending_activity_amount = amount;
    c.token_reserve.last_lending_activity_type = ACTIVITY_COLLECT_SOLVENCY_FEES;
    c.lending_user_monthly_statement_account.last_lending_activity_amount = amount;
    c.lending_user_monthly_statement_account.last_lending_activity_type = ACTIVITY_COLLECT_SOLVENCY_FEES;
    c.lending_user_monthly_statement_account.last_lending_activity_time_stamp = c.time_stamp;
    c.token_reserve.uncollected_solvency_insurance_fees_amount = 0;
    c.lending_stats.fee_collections = c.lending_stats.fee_collections + 1;
    Ok((c, Effects { into_reserve: None, out_of_reserve: Some(amount), refund_oracle_fees: false }))
}

/// The accounts and readings of a sub market fee claim deposited into another sub
/// market of the same token reserve.
pub struct ClaimSubMarketFeesAndDepositInDifferentSubMarket {
    pub signer: Pubkey,
    pub initial_sub_market_owner: Pubkey,
    pub destination_sub_market_owner: Pubkey,
    pub lending_protocol: LendingProtocol,
    pub lending_stats: LendingStats,
    pub token_reserve: TokenReserve,
    pub initial_sub_market: SubMarket,
    pub destination_sub_market: SubMarket,
    pub lending_user_account: LendingUserAccount,
    pub initial_lending_user_tab_account: LendingUserTabAccount,
    pub destination_lending_user_tab_account: LendingUserTabAccount,
    pub initial_lending_user_monthly_statement_account: LendingUserMonthlyStatementAccount,
    pub destination_lending_user_monthly_statement_account: LendingUserMonthlyStatementAccount,
    pub lending_user_account_bump: u8,
    pub initial_lending_user_tab_account_bump: u8,
    pub destination_lending_user_tab_account_bump: u8,
    pub initial_lending_user_monthly_statement_account_bump: u8,
    pub destination_lending_user_monthly_statement_account_bump: u8,
    /// The cluster's unix time stamp.
    pub time_stamp: u64,
}

/// Two such claim contexts agree, the user account names compared by their characters.
pub open spec fn same_claim_and_deposit(a: ClaimSubMarketFeesAndDepositInDifferentSubMarket, b: ClaimSubMarketFeesAndDepositInDifferentSubMarket) -> bool {
    &&& same_user_account(a.lending_user_account, b.lending_user_account)
    &&& a == (ClaimSubMarketFeesAndDepositInDifferentSubMarket { lending_user_account: a.lending_user_account, ..b })
}

/// The fee collector's accounts for a claim into another sub market: its lending
/// account, then the tab in the initial and in the destination sub market, then their
/// statements, set up when new.
pub open spec fn spec_claim_and_deposit_setup(
    c: ClaimSubMarketFeesAndDepositInDifferentSubMarket,
    initial_sub_market_index: u16,
    destination_sub_market_index: u16,
    user_account_index: u8,
    account_name: Option<String>,
    look_up_table_address: Option<Pubkey>,
) -> Outcome<(LendingUserAccount, LendingUserTabAccount, LendingUserTabAccount, LendingUserMonthlyStatementAccount,
    LendingUserMonthlyStatementAccount)> {
    let token_id = c.token_reserve.token_id;
    match spec_ensure_user_account(c.lending_user_account, account_name, "Generic Sub Fee Claimer"@,
        look_up_table_address, c.lending_user_account_bump, c.signer, user_account_index) {
        Outcome::Fail(e) => Outcome::Fail(e),
        Outcome::Abort => Outcome::Abort,
        Outcome::Done(ua1) => match spec_ensure_tab(ua1, c.initial_lending_user_tab_account, c.lending_protocol,
            c.initial_lending_user_tab_account_bump, token_id, c.initial_sub_market_owner, initial_sub_market_index,
            c.signer, user_account_index) {
            Outcome::Fail(e) => Outcome::Fail(e),
            Outcome::Abort => Outcome::Abort,
            Outcome::Done(p) => match spec_ensure_tab(p.0, c.destination_lending_user_tab_account, c.lending_protocol,
                c.destination_lending_user_tab_account_bump, token_id, c.destination_sub_market_owner,
                destination_sub_market_index, c.signer, user_account_index) {
                Outcome::Fail(e) => Outcome::Fail(e),
                Outcome::Abort => Outcome::Abort,
                Outcome::Done(q) => Outcome::Done((
                    q.0,
                    p.1,
                    q.1,
                    spec_ensure_statement(c.initial_lending_user_monthly_statement_account, p.1, c.lending_protocol,
                        c.initial_lending_user_monthly_statement_account_bump, token_id, c.initial_sub_market_owner,
                        initial_sub_market_index, c.signer, user_account_index),
                    spec_ensure_statement(c.destination_lending_user_monthly_statement_account, q.1,
                        c.lending_protocol, c.destination_lending_user_monthly_statement_account_bump, token_id,
                        c.destination_sub_market_owner, destination_sub_market_index, c.signer, user_account_index),
                )),
            },
        },
    }
}

/// Sets up the fee collector's accounts (see `spec_claim_and_deposit_setup`).
fn claim_and_deposit_setup(
    c: &mut ClaimSubMarketFeesAndDepositInDifferentSubMarket,
    initial_sub_market_index: u16,
    destination_sub_market_index: u16,
    user_account_index: u8,
    account_name: Option<String>,
    look_up_table_address: Option<Pubkey>,
) -> (r: Result<(), LendingError>)
    requires
        !(spec_claim_and_deposit_setup(*old(c), initial_sub_market_index, destination_sub_market_index,
            user_account_index, account_name, look_up_table_address) is Abort),
    ensures
        match spec_claim_and_deposit_setup(*old(c), initial_sub_market_index, destination_sub_market_index,
            user_account_index, account_name, look_up_table_address) {
            Outcome::Done(p) => r is Ok && same_user_account(final(c).lending_user_account, p.0)
                && *final(c) == (ClaimSubMarketFeesAndDepositInDifferentSubMarket {
                    lending_user_account: final(c).lending_user_account,
                    initial_lending_user_tab_account: p.1,
                    destination_lending_user_tab_account: p.2,
                    initial_lending_user_monthly_statement_account: p.3,
                    destination_lending_user_monthly_statement_account: p.4,
                    ..*old(c)
                }),
            Outcome::Fail(e) => r matches Err(f) && f == e,
            Outcome::Abort => false,
        },
{
    let token_id = c.token_reserve.token_id;
    ensure_lending_user_account(&mut c.lending_user_account, account_name, "Generic Sub Fee Claimer",
        look_up_table_address, c.lending_user_account_bump, c.signer, user_account_index)?;
    ensure_lending_user_tab_account(&mut c.lending_user_account, &mut c.initial_lending_user_tab_account,
        &c.lending_protocol, c.initial_lending_user_tab_account_bump, token_id, c.initial_sub_market_owner,
        initial_sub_market_index, c.signer, user_account_index)?;
    ensure_lending_user_tab_account(&mut c.lending_user_account, &mut c.destination_lending_user_tab_account,
        &c.lending_protocol, c.destination_lending_user_tab_account_bump, token_id, c.destination_sub_market_owner,
        destination_sub_market_index, c.signer, user_account_index)?;
    ensure_monthly_statement(&mut c.initial_lending_user_monthly_statement_account,
        &c.initial_lending_user_tab_account, &c.lending_protocol,
        c.initial_lending_user_monthly_statement_account_bump, token_id, c.initial_sub_market_owner,
        initial_sub_market_index, c.signer, user_account_index);
    ensure_monthly_statement(&mut c.destination_lending_user_monthly_statement_account,
        &c.destination_lending_user_tab_account, &c.lending_protocol,
        c.destination_lending_user_monthly_statement_account_bump, token_id, c.destination_sub_market_owner,
        destination_sub_market_index, c.signer, user_account_index);
    Ok(())
}

/// Moves the initial sub market's uncollected fees into the collector's tab in the
/// destination sub market, once its accounts are set up and the destination's interest
/// settled: the fees count as collected and withdrawn in the initial sub market and as
/// deposited in the destination; the rates are recomputed; the collection is counted;
/// the activities are recorded; the initial sub market's fees are cleared.
pub open spec fn spec_move_fees(c: ClaimSubMarketFeesAndDepositInDifferentSubMarket) -> Outcome<ClaimSubMarketFeesAndDepositInDifferentSubMarket> {
    let fees = c.initial_sub_market.uncollected_sub_market_fees_amount;
    let f = fees as u64;
    let tr = c.token_reserve;
    let dsm = c.destination_sub_market;
    let dtab = c.destination_lending_user_tab_account;
    let ist = c.initial_lending_user_monthly_statement_account;
    let dst = c.destination_lending_user_monthly_statement_account;
    if tr.deposited_amount + fees > u128::MAX || dsm.deposited_amount + fees > u128::MAX
        || dtab.deposited_amount + f > u64::MAX || ist.monthly_sub_market_fees_collected_amount + f > u64::MAX
        || ist.monthly_withdrawal_amount + f > u64::MAX || dst.monthly_deposited_amount + f > u64::MAX
        || c.lending_stats.fee_collections + 1 > u128::MAX {
        Outcome::Abort
    } else {
        let dtab1 = LendingUserTabAccount { deposited_amount: (dtab.deposited_amount + f) as u64, ..dtab };
        match spec_step_rates_and_sync(
            TokenReserve { deposited_amount: (tr.deposited_amount + fees) as u128, ..tr },
            SubMarket { deposited_amount: (dsm.deposited_amount + fees) as u128, ..dsm },
            dtab1,
        ) {
            Outcome::Fail(e) => Outcome::Fail(e),
            Outcome::Abort => Outcome::Abort,
            Outcome::Done(p) => {
                let ts = p.0.last_lending_activity_time_stamp;
                let dst1 = LendingUserMonthlyStatementAccount {
                    monthly_deposited_amount: (dst.monthly_deposited_amount + f) as u64,
                    snap_shot_balance_amount: dtab1.deposited_amount,
                    ..dst
                };
                let q = spec_record_activity(p.0, p.1, dst1, f, ACTIVITY_DEPOSIT);
                Outcome::Done(ClaimSubMarketFeesAndDepositInDifferentSubMarket {
                    lending_stats: LendingStats {
                        fee_collections: (c.lending_stats.fee_collections + 1) as u128,
                        ..c.lending_stats
                    },
                    token_reserve: TokenReserve {
                        last_lending_activity_type: ACTIVITY_COLLECT_SUB_MARKET_FEES,
                        ..q.0
                    },
                    initial_sub_market: SubMarket {
                        last_lending_activity_amount: f,
                        last_lending_activity_type: ACTIVITY_COLLECT_SUB_MARKET_FEES,
                        last_lending_activity_time_stamp: ts,
                        uncollected_sub_market_fees_amount: 0,
                        ..c.initial_sub_market
                    },
                    destination_sub_market: q.1,
                    destination_lending_user_tab_account: p.2,
                    initial_lending_user_monthly_statement_account: LendingUserMonthlyStatementAccount {
                        monthly_sub_market_fees_collected_amount: (ist.monthly_sub_market_fees_collected_amount + f)
                            as u64,
                        monthly_withdrawal_amount: (ist.monthly_withdrawal_amount + f) as u64,
                        last_lending_activity_amount: f,
                        last_lending_activity_type: ACTIVITY_COLLECT_SUB_MARKET_FEES,
                        last_lending_activity_time_stamp: ts,
                        ..ist
                    },
                    destination_lending_user_monthly_statement_account: q.2,
                    ..c
                })
            },
        }
    }
}

/// Moves the fees (see `spec_move_fees`).
fn move_fees(c: &mut ClaimSubMarketFeesAndDepositInDifferentSubMarket)
    requires
        !(spec_move_fees(*old(c)) is Abort),
    ensures
        spec_move_fees(*old(c)) == Outcome::Done(*final(c)),
{
    let fees = c.initial_sub_market.uncollected_sub_market_fees_amount;
    let f = fees as u64;
    c.token_reserve.deposited_amount = c.token_reserve.deposited_amount + fees;
    c.destination_sub_market.deposited_amount = c.destination_sub_market.deposited_amount + fees;
    c.destination_lending_user_tab_account.deposited_amount = c.destination_lending_user_tab_account.deposited_amount
        + f;
    c.initial_lending_user_monthly_statement_account.monthly_sub_market_fees_collected_amount =
        c.initial_lending_user_monthly_statement_account.monthly_sub_market_fees_collected_amount + f;
    c.initial_lending_user_monthly_statement_account.monthly_withdrawal_amount =
        c.initial_lending_user_monthly_statement_account.monthly_withdrawal_amount + f;
    c.destination_lending_user_monthly_statement_account.monthly_deposited_amount =
        c.destination_lending_user_monthly_statement_account.monthly_deposited_amount + f;
    c.destination_lending_user_monthly_statement_account.snap_shot_balance_amount =
        c.destination_lending_user_tab_account.deposited_amount;
    rates_and_sync(&mut c.token_reserve, &mut c.destination_sub_market, &mut c.destination_lending_user_tab_account);
    c.lending_stats.fee_collections = c.lending_stats.fee_collections + 1;
    record_activity(&mut c.token_reserve, &mut c.destination_sub_market,
        &mut c.destination_lending_user_monthly_statement_account, f, ACTIVITY_DEPOSIT);
    let ts = c.token_reserve.last_lending_activity_time_stamp;
    c.token_reserve.last_lending_activity_type = ACTIVITY_COLLECT_SUB_MARKET_FEES;
    c.initial_sub_market.last_lending_activity_amount = f;
    c.initial_sub_market.last_lending_activity_type = ACTIVITY_COLLECT_SUB_MARKET_FEES;
    c.initial_sub_market.last_lending_activity_time_stamp = ts;
    c.initial_lending_user_monthly_statement_account.last_lending_activity_amount = f;
    c.initial_lending_user_monthly_statement_account.last_lending_activity_type = ACTIVITY_COLLECT_SUB_MARKET_FEES;
    c.initial_lending_user_monthly_statement_account.last_lending_activity_time_stamp = ts;
    c.initial_sub_market.uncollected_sub_market_fees_amount = 0;
}

/// A sub market's fee collector claims its uncollected fees into its tab in another sub
/// market of the same reserve: only the fee collector may; the two sub markets must
/// differ; its accounts are set up when new; the destination's interest is settled;
/// then the fees are moved (see `spec_move_fees`).
pub open spec fn spec_claim_sub_market_fees_and_deposit_in_different_sub_market(
    c: ClaimSubMarketFeesAndDepositInDifferentSubMarket,
    initial_sub_market_index: u16,
    destination_sub_market_index: u16,
    user_account_index: u8,
    account_name: Option<String>,
    look_up_table_address: Option<Pubkey>,
) -> Outcome<(ClaimSubMarketFeesAndDepositInDifferentSubMarket, Effects)> {
    if c.signer != c.initial_sub_market.fee_collector_address {
        Outcome::Fail(LendingError::NotFeeCollector)
    } else if c.initial_sub_market_owner == c.destination_sub_market_owner
        && initial_sub_market_index == destination_sub_market_index {
        Outcome::Fail(LendingError::DuplicateSubMarket)
    } else {
        match spec_claim_and_deposit_setup(c, initial_sub_market_index, destination_sub_market_index,
            user_account_index, account_name, look_up_table_address) {
            Outcome::Fail(e) => Outcome::Fail(e),
            Outcome::Abort => Outcome::Abort,
            Outcome::Done(u) => match spec_step_refresh(c.token_reserve, c.destination_sub_market, u.2, u.4,
                c.time_stamp) {
                Outcome::Fail(e) => Outcome::Fail(e),
                Outcome::Abort => Outcome::Abort,
                Outcome::Done(s) => match spec_move_fees(ClaimSubMarketFeesAndDepositInDifferentSubMarket {
                    lending_user_account: u.0,
                    token_reserve: s.0,
                    destination_sub_market: s.1,
                    initial_lending_user_tab_account: u.1,
                    destination_lending_user_tab_account: s.2,
                    initial_lending_user_monthly_statement_account: u.3,
                    destination_lending_user_monthly_statement_account: s.3,
                    ..c
                }) {
                    Outcome::Fail(e) => Outcome::Fail(e),
                    Outcome::Abort => Outcome::Abort,
                    Outcome::Done(q) => Outcome::Done((q, no_effects())),
                },
            },
        }
    }
}

/// Claims a sub market's fees into the collector's tab in another sub market of the
/// same reserve (see `spec_claim_sub_market_fees_and_deposit_in_different_sub_market`).
pub fn claim_sub_market_fees_and_deposit_in_different_sub_market(
    ctx: ClaimSubMarketFeesAndDepositInDifferentSubMarket,
    initial_sub_market_index: u16,
    destination_sub_market_index: u16,
    user_account_index: u8,
    account_name: Option<String>,
    look_up_table_address: Option<Pubkey>,
) -> (r: Result<(ClaimSubMarketFeesAndDepositInDifferentSubMarket, Effects), LendingError>)
    requires
        !(spec_claim_sub_market_fees_and_deposit_in_different_sub_market(ctx, initial_sub_market_index,
            destination_sub_market_index, user_account_index, account_name, look_up_table_address) is Abort),
    ensures
        match spec_claim_sub_market_fees_and_deposit_in_different_sub_market(ctx, initial_sub_market_index,
            destination_sub_market_index, user_account_index, account_name, look_up_table_address) {
            Outcome::Done(p) => r matches Ok(q) && same_claim_and_deposit(q.0, p.0) && q.1 == p.1,
            Outcome::Fail(e) => r matches Err(f) && f == e,
            Outcome::Abort => false,
        },
{
    if !keys_equal(&ctx.signer, &ctx.initial_sub_market.fee_collector_address) {
        return Err(LendingError::NotFeeCollector);
    }
    if keys_equal(&ctx.initial_sub_market_owner, &ctx.destination_sub_market_owner)
        && initial_sub_market_index == destination_sub_market_index {
        return Err(LendingError::DuplicateSubMarket);
    }
    let mut c = ctx;
    let mut held = c.lending_user_account.duplicate();
    claim_and_deposit_setup(&mut c, initial_sub_market_index, destination_sub_market_index, user_account_index,
        account_name, look_up_table_address)?;
    std::mem::swap(&mut c.lending_user_account, &mut held);
    refresh_tab(&mut c.token_reserve, &mut c.destination_sub_market, &mut c.destination_lending_user_tab_account,
        &mut c.destination_lending_user_monthly_statement_account, c.time_stamp)?;
    move_fees(&mut c);
    std::mem::swap(&mut c.lending_user_account, &mut held);
    Ok((c, Effects { into_reserve: None, out_of_reserve: None, refund_oracle_fees: false }))
}

} // verus!
