use vstd::prelude::*;
use crate::errors::LendingError;
use crate::structs::{
    Pubkey, OraclePriceValidator, LendingProtocol, LendingStats, TokenReserve, SubMarket, LendingUserAccount, LendingUserTabAccount,
    LendingUserMonthlyStatementAccount,
};
use crate::steps::{
    Outcome, same_user_account, spec_ensure_user_account, spec_ensure_tab, spec_ensure_statement,
    spec_step_refresh, spec_step_rates_and_sync, spec_record_activity, ensure_lending_user_account,
    ensure_lending_user_tab_account, ensure_monthly_statement, refresh_tab, rates_and_sync, record_activity,
    Effects, PriceAccounts, spec_step_index, spec_step_earned, spec_step_load_prices,
    spec_oracle_check, load_price_account, check_oracle_account, ACTIVITY_DEPOSIT, ACTIVITY_WITHDRAW, ACTIVITY_BORROW, ACTIVITY_REPAY,
};
use crate::oracle::{price_is_fresh, spec_price_lookup, pow10, check_token_price_staleness, get_verified_token_price,
    token_conversion_number, spec_verified_price};

verus! {

/// The accounts and readings a deposit works on.
pub struct DepositTokens {
    pub signer: Pubkey,
    pub sub_market_owner: Pubkey,
    pub lending_protocol: LendingProtocol,
    pub lending_stats: LendingStats,
    pub token_reserve: TokenReserve,
    pub sub_market: SubMarket,
    pub lending_user_account: LendingUserAccount,
    pub lending_user_tab_account: LendingUserTabAccount,
    pub lending_user_monthly_statement_account: LendingUserMonthlyStatementAccount,
    pub lending_user_account_bump: u8,
    pub lending_user_tab_account_bump: u8,
    pub lending_user_monthly_statement_account_bump: u8,
    /// The cluster's unix time stamp.
    pub time_stamp: u64,
}

/// Two deposit contexts agree, the user account names compared by their characters.
pub open spec fn same_deposit(a: DepositTokens, b: DepositTokens) -> bool {
    &&& same_user_account(a.lending_user_account, b.lending_user_account)
    &&& a == (DepositTokens { lending_user_account: a.lending_user_account, ..b })
}

/// The last part of a deposit: book the amount, recompute the rates, record the activity.
pub open spec fn spec_deposit_book(
    c: DepositTokens,
    ua: LendingUserAccount,
    s: (TokenReserve, SubMarket, LendingUserTabAccount, LendingUserMonthlyStatementAccount),
    amount: u64,
) -> Outcome<(DepositTokens, Effects)> {
    let (tr, sm, tab, st) = s;
    if c.lending_stats.deposits + 1 > u128::MAX
        || sm.deposited_amount + amount > u128::MAX
        || tr.deposited_amount + amount > u128::MAX
        || tab.deposited_amount + amount > u64::MAX
        || st.monthly_deposited_amount + amount > u64::MAX {
        Outcome::Abort
    } else {
        let tab1 = LendingUserTabAccount { deposited_amount: (tab.deposited_amount + amount) as u64, ..tab };
        match spec_step_rates_and_sync(
            TokenReserve { deposited_amount: (tr.deposited_amount + amount) as u128, ..tr },
            SubMarket { deposited_amount: (sm.deposited_amount + amount) as u128, ..sm },
            tab1,
        ) {
            Outcome::Done(p) => {
                let st1 = LendingUserMonthlyStatementAccount {
                    monthly_deposited_amount: (st.monthly_deposited_amount + amount) as u64,
                    snap_shot_balance_amount: tab1.deposited_amount,
                    ..st
                };
                let q = spec_record_activity(p.0, p.1, st1, amount, ACTIVITY_DEPOSIT);
                Outcome::Done((
                    DepositTokens {
                        lending_stats: LendingStats { deposits: (c.lending_stats.deposits + 1) as u128, ..c.lending_stats },
                        token_reserve: q.0,
                        sub_market: q.1,
                        lending_user_account: ua,
                        lending_user_tab_account: p.2,
                        lending_user_monthly_statement_account: q.2,
                        ..c
                    },
                    Effects {
                        into_reserve: Some(amount),
                        out_of_reserve: None,
                        refund_oracle_fees: false,
                    },
                ))
            },
            Outcome::Fail(e) => Outcome::Fail(e),
            Outcome::Abort => Outcome::Abort,
        }
    }
}

/// A deposit of `amount` tokens into a sub market: the reserve's global limit must
/// hold; the user's account, tab and statement are set up when new; interest is
/// settled; the amount is booked; the rates are recomputed.
pub open spec fn spec_deposit_tokens(
    c: DepositTokens,
    sub_market_index: u16,
    user_account_index: u8,
    amount: u64,
    account_name: Option<String>,
    look_up_table_address: Option<Pubkey>,
) -> Outcome<(DepositTokens, Effects)> {
    let tr = c.token_reserve;
    if amount + tr.deposited_amount > u128::MAX {
        Outcome::Abort
    } else if amount + tr.deposited_amount > tr.global_limit {
        Outcome::Fail(LendingError::GlobalLimitExceeded)
    } else {
        match spec_ensure_user_account(c.lending_user_account, account_name, "Generic Depositer"@,
            look_up_table_address, c.lending_user_account_bump, c.signer, user_account_index) {
            Outcome::Fail(e) => Outcome::Fail(e),
            Outcome::Abort => Outcome::Abort,
            Outcome::Done(ua1) => match spec_ensure_tab(ua1, c.lending_user_tab_account, c.lending_protocol,
                c.lending_user_tab_account_bump, tr.token_id, c.sub_market_owner, sub_market_index, c.signer,
                user_account_index) {
                Outcome::Fail(e) => Outcome::Fail(e),
                Outcome::Abort => Outcome::Abort,
                Outcome::Done(p) => {
                    let st1 = spec_ensure_statement(c.lending_user_monthly_statement_account, p.1,
                        c.lending_protocol, c.lending_user_monthly_statement_account_bump, tr.token_id,
                        c.sub_market_owner, sub_market_index, c.signer, user_account_index);
                    match spec_step_refresh(tr, c.sub_market, p.1, st1, c.time_stamp) {
                        Outcome::Done(s) => spec_deposit_book(c, p.0, s, amount),
                        Outcome::Fail(e) => Outcome::Fail(e),
                        Outcome::Abort => Outcome::Abort,
                    }
                },
            },
        }
    }
}

/// Deposits `amount` tokens into a sub market of a token reserve (see
/// `spec_deposit_tokens`); returns the updated accounts and the transfer to make.
pub fn deposit_tokens(
    ctx: DepositTokens,
    sub_market_index: u16,
    user_account_index: u8,
    amount: u64,
    account_name: Option<String>,
    look_up_table_address: Option<Pubkey>,
) -> (r: Result<(DepositTokens, Effects), LendingError>)
    requires
        !(spec_deposit_tokens(ctx, sub_market_index, user_account_index, amount, account_name,
            look_up_table_address) is Abort),
    ensures
        match spec_deposit_tokens(ctx, sub_market_index, user_account_index, amount, account_name,
            look_up_table_address) {
            Outcome::Done(p) => r matches Ok(q) && same_deposit(q.0, p.0) && q.1 == p.1,
            Outcome::Fail(e) => r == Err::<(DepositTokens, Effects), LendingError>(e),
            Outcome::Abort => false,
        },
{
    let mut c = ctx;
    let ghost c0 = c;
    let new_total = amount as u128 + c.token_reserve.deposited_amount;
    if new_total > c.token_reserve.global_limit {
        return Err(LendingError::GlobalLimitExceeded);
    }
    ensure_lending_user_account(&mut c.lending_user_account, account_name, "Generic Depositer",
        look_up_table_address, c.lending_user_account_bump, c.signer, user_account_index)?;
    let ghost ua1 = c.lending_user_account;
    ensure_lending_user_tab_account(&mut c.lending_user_account, &mut c.lending_user_tab_account,
        &c.lending_protocol, c.lending_user_tab_account_bump, c.token_reserve.token_id, c.sub_market_owner,
        sub_market_index, c.signer, user_account_index)?;
    ensure_monthly_statement(&mut c.lending_user_monthly_statement_account, &c.lending_user_tab_account,
        &c.lending_protocol, c.lending_user_monthly_statement_account_bump, c.token_reserve.token_id,
        c.sub_market_owner, sub_market_index, c.signer, user_account_index);
    refresh_tab(&mut c.token_reserve, &mut c.sub_market, &mut c.lending_user_tab_account,
        &mut c.lending_user_monthly_statement_account, c.time_stamp)?;

    c.lending_stats.deposits = c.lending_stats.deposits + 1;
    c.sub_market.deposited_amount = c.sub_market.deposited_amount + amount as u128;
    c.token_reserve.deposited_amount = c.token_reserve.deposited_amount + amount as u128;
    c.lending_user_tab_account.deposited_amount = c.lending_user_tab_account.deposited_amount + amount;
    c.lending_user_monthly_statement_account.monthly_deposited_amount =
        c.lending_user_monthly_statement_account.monthly_deposited_amount + amount;
    c.lending_user_monthly_statement_account.snap_shot_balance_amount = c.lending_user_tab_account.deposited_amount;

    rates_and_sync(&mut c.token_reserve, &mut c.sub_market, &mut c.lending_user_tab_account);
    record_activity(&mut c.token_reserve, &mut c.sub_market, &mut c.lending_user_monthly_statement_account, amount,
        ACTIVITY_DEPOSIT);
    Ok((c, Effects {
        into_reserve: Some(amount),
        out_of_reserve: None,
        refund_oracle_fees: false,
    }))
}

/// The accounts and readings a withdrawal works on.
pub struct WithdrawTokens {
    pub program_id: Pubkey,
    pub signer: Pubkey,
    pub sub_market_owner: Pubkey,
    pub lending_protocol: LendingProtocol,
    pub lending_stats: LendingStats,
    pub price_validator: OraclePriceValidator,
    pub token_reserve: TokenReserve,
    pub sub_market: SubMarket,
    pub lending_user_account: LendingUserAccount,
    pub lending_user_tab_account: LendingUserTabAccount,
    pub lending_user_monthly_statement_account: LendingUserMonthlyStatementAccount,
    pub lending_user_monthly_statement_account_bump: u8,
    /// The balance of the token reserve's token account: what can be withdrawn now.
    pub token_reserve_ata_amount: u64,
    pub time_stamp: u64,
    pub clock_slot: u64,
}

/// The smaller of two integers.
pub open spec fn min_int(a: int, b: int) -> int {
    if a <= b { a } else { b }
}

/// The USD value, with 18 decimals, of `amount` base units at `price`.
pub open spec fn usd_value(amount: int, price: int, conversion: int) -> int {
    (amount * price) / conversion
}

/// The first part of a withdrawal. A user with debt must have refreshed their health
/// in this slot; a user without debt gets the statement opened and earned interest
/// settled here.
pub open spec fn spec_withdraw_prelude(c: WithdrawTokens, sub_market_index: u16, user_account_index: u8)
    -> Outcome<(TokenReserve, SubMarket, LendingUserTabAccount, LendingUserMonthlyStatementAccount)> {
    if c.lending_user_account.total_borrowed_usd_value > 0 {
        if c.lending_user_account.last_health_update_clock_slot != c.clock_slot {
            Outcome::Fail(LendingError::StaleTokenReserveOrLendingUser)
        } else {
            Outcome::Done((c.token_reserve, c.sub_market, c.lending_user_tab_account,
                c.lending_user_monthly_statement_account))
        }
    } else {
        let st1 = spec_ensure_statement(c.lending_user_monthly_statement_account, c.lending_user_tab_account,
            c.lending_protocol, c.lending_user_monthly_statement_account_bump, c.token_reserve.token_id,
            c.sub_market_owner, sub_market_index, c.signer, user_account_index);
        match spec_step_index(c.token_reserve, c.time_stamp, None) {
            Outcome::Done(tr1) => spec_step_earned(tr1, c.sub_market, c.lending_user_tab_account, st1),
            Outcome::Fail(e) => Outcome::Fail(e),
            Outcome::Abort => Outcome::Abort,
        }
    }
}

/// The amount a user with debt may withdraw: the requested amount when it keeps the
/// debt within 70% of the remaining collateral, or for a maximal withdrawal the most
/// that does, capped by the tab's deposit and the reserve's liquidity.
pub open spec fn spec_withdraw_limit(
    ua: LendingUserAccount,
    deposited: u64,
    available: u64,
    amount: u64,
    withdraw_max: bool,
    price: u128,
    conversion: nat,
) -> Outcome<u64> {
    let td = ua.total_deposited_usd_value as int;
    let tb = ua.total_borrowed_usd_value as int;
    if !withdraw_max {
        if amount * price > u128::MAX {
            Outcome::Abort
        } else if usd_value(amount as int, price as int, conversion as int) > td {
            Outcome::Abort
        } else {
            let nd = td - usd_value(amount as int, price as int, conversion as int);
            if nd * 70 > u128::MAX {
                Outcome::Abort
            } else if (nd * 70) / 100 >= tb {
                Outcome::Done(amount)
            } else {
                Outcome::Fail(LendingError::LiquidationExposure)
            }
        }
    } else {
        if tb * 100 > u128::MAX {
            Outcome::Abort
        } else if td > (tb * 100) / 70 {
            let mu = td - (tb * 100) / 70;
            if mu * conversion > u128::MAX || price == 0 {
                Outcome::Abort
            } else {
                let safe = min_int((mu * conversion) / price as int, deposited as int);
                Outcome::Done(min_int(safe, available as int) as u64)
            }
        } else {
            Outcome::Fail(LendingError::LiquidationExposure)
        }
    }
}

/// The amount a withdrawal moves and, when the user has debt, the value of that amount
/// (which also means prices were read, so the oracle is refunded): without debt the
/// request or, for a maximal withdrawal, the tab's deposit capped by the reserve's
/// liquidity; with debt, see `spec_withdraw_limit`.
pub open spec fn spec_withdraw_amount(
    c: WithdrawTokens,
    pa: PriceAccounts,
    s: (TokenReserve, SubMarket, LendingUserTabAccount, LendingUserMonthlyStatementAccount),
    amount: u64,
    withdraw_max: bool,
) -> Outcome<(u64, Option<u128>)> {
    let available = c.token_reserve_ata_amount;
    let deposited = s.2.deposited_amount;
    let requested = if withdraw_max { min_int(available as int, deposited as int) as u64 } else { amount };
    if c.lending_user_account.total_borrowed_usd_value == 0 {
        Outcome::Done((requested, None))
    } else {
        match spec_step_load_prices(c.program_id, c.signer, pa.temp_price_account) {
            Outcome::Fail(e) => Outcome::Fail(e),
            Outcome::Abort => Outcome::Abort,
            Outcome::Done(temp) => if !price_is_fresh(temp.slot, c.clock_slot) {
                Outcome::Fail(LendingError::OracleDataStale)
            } else {
                match spec_price_lookup(temp.data@, s.0.token_id) {
                    None => Outcome::Fail(LendingError::OraclePriceNotFound),
                    Some(price) => if s.0.token_decimal_amount > 38 {
                        Outcome::Abort
                    } else {
                        match spec_withdraw_limit(c.lending_user_account, deposited, available, requested,
                            withdraw_max, price, pow10(s.0.token_decimal_amount as nat)) {
                            Outcome::Done(wa) => match spec_oracle_check(pa.oracle_account, c.price_validator.address) {
                                Ok(_) => Outcome::Done((wa, Some(usd_value(wa as int, price as int,
                                    pow10(s.0.token_decimal_amount as nat) as int) as u128))),
                                Err(e) => Outcome::Fail(e),
                            },
                            Outcome::Fail(e) => Outcome::Fail(e),
                            Outcome::Abort => Outcome::Abort,
                        }
                    },
                }
            },
        }
    }
}

/// A user account's total deposited value after collateral worth `taken` left it (not
/// below zero); unchanged when no value was read.
pub open spec fn less_collateral(ua: LendingUserAccount, taken: Option<u128>) -> LendingUserAccount {
    match taken {
        Some(v) => LendingUserAccount {
            total_deposited_usd_value: if ua.total_deposited_usd_value >= v {
                (ua.total_deposited_usd_value - v) as u128
            } else {
                0
            },
            ..ua
        },
        None => ua,
    }
}

/// The last part of a withdrawal: the tab must hold the amount and the reserve must
/// have it; the amount is booked out, the rates recomputed and the activity recorded.
/// For a user with debt the value taken comes off the account's total deposited value,
/// so that a later withdrawal or borrow in the same slot is held to what is left.
pub open spec fn spec_withdraw_book(
    c: WithdrawTokens,
    s: (TokenReserve, SubMarket, LendingUserTabAccount, LendingUserMonthlyStatementAccount),
    wa: u64,
    taken: Option<u128>,
) -> Outcome<(WithdrawTokens, Effects)> {
    let (tr, sm, tab, st) = s;
    if tab.deposited_amount < wa {
        Outcome::Fail(LendingError::InsufficientFunds)
    } else if c.token_reserve_ata_amount < wa {
        Outcome::Fail(LendingError::InsufficientLiquidity)
    } else if c.lending_stats.withdrawals + 1 > u128::MAX
        || sm.deposited_amount < wa
        || tr.deposited_amount < wa
        || st.monthly_withdrawal_amount + wa > u64::MAX {
        Outcome::Abort
    } else {
        let tab1 = LendingUserTabAccount { deposited_amount: (tab.deposited_amount - wa) as u64, ..tab };
        match spec_step_rates_and_sync(
            TokenReserve { deposited_amount: (tr.deposited_amount - wa) as u128, ..tr },
            SubMarket { deposited_amount: (sm.deposited_amount - wa) as u128, ..sm },
            tab1,
        ) {
            Outcome::Done(p) => {
                let st1 = LendingUserMonthlyStatementAccount {
                    monthly_withdrawal_amount: (st.monthly_withdrawal_amount + wa) as u64,
                    snap_shot_balance_amount: tab1.deposited_amount,
                    ..st
                };
                let q = spec_record_activity(p.0, p.1, st1, wa, ACTIVITY_WITHDRAW);
                Outcome::Done((
                    WithdrawTokens {
                        lending_stats: LendingStats { withdrawals: (c.lending_stats.withdrawals + 1) as u128, ..c.lending_stats },
                        token_reserve: q.0,
                        sub_market: q.1,
                        lending_user_tab_account: p.2,
                        lending_user_monthly_statement_account: q.2,
                        lending_user_account: less_collateral(c.lending_user_account, taken),
                        ..c
                    },
                    Effects {
                        into_reserve: None,
                        out_of_reserve: Some(wa),
                        refund_oracle_fees: taken is Some,
                    },
                ))
            },
            Outcome::Fail(e) => Outcome::Fail(e),
            Outcome::Abort => Outcome::Abort,
        }
    }
}

/// A withdrawal of `amount` tokens (or of as much as is allowed, for `withdraw_max`).
pub open spec fn spec_withdraw_tokens(
    c: WithdrawTokens,
    pa: PriceAccounts,
    sub_market_index: u16,
    user_account_index: u8,
    amount: u64,
    withdraw_max: bool,
) -> Outcome<(WithdrawTokens, Effects)> {
    match spec_withdraw_prelude(c, sub_market_index, user_account_index) {
        Outcome::Fail(e) => Outcome::Fail(e),
        Outcome::Abort => Outcome::Abort,
        Outcome::Done(s) => match spec_withdraw_amount(c, pa, s, amount, withdraw_max) {
            Outcome::Fail(e) => Outcome::Fail(e),
            Outcome::Abort => Outcome::Abort,
            Outcome::Done(w) => spec_withdraw_book(c, s, w.0, w.1),
        },
    }
}

/// Computes the amount a user with debt may withdraw (see `spec_withdraw_limit`).
fn withdraw_limit(
    ua: &LendingUserAccount,
    deposited: u64,
    available: u64,
    amount: u64,
    withdraw_max: bool,
    price: u128,
    conversion: u128,
) -> (r: Result<u64, LendingError>)
    requires
        conversion > 0,
        !(spec_withdraw_limit(*ua, deposited, available, amount, withdraw_max, price, conversion as nat) is Abort),
    ensures
        match spec_withdraw_limit(*ua, deposited, available, amount, withdraw_max, price, conversion as nat) {
            Outcome::Done(w) => r == Ok::<u64, LendingError>(w),
            Outcome::Fail(e) => r == Err::<u64, LendingError>(e),
            Outcome::Abort => false,
        },
{
    if !withdraw_max {
        let value = (amount as u128 * price) / conversion;
        let new_deposited = ua.total_deposited_usd_value - value;
        let seventy_percent = (new_deposited * 70) / 100;
        if seventy_percent >= ua.total_borrowed_usd_value {
            Ok(amount)
        } else {
            Err(LendingError::LiquidationExposure)
        }
    } else {
        let min_required = (ua.total_borrowed_usd_value * 100) / 70;
        if ua.total_deposited_usd_value > min_required {
            let max_usd = ua.total_deposited_usd_value - min_required;
            let max_tokens = (max_usd * conversion) / price;
            let safe: u64 = if max_tokens <= deposited as u128 { max_tokens as u64 } else { deposited };
            if safe <= available { Ok(safe) } else { Ok(available) }
        } else {
            Err(LendingError::LiquidationExposure)
        }
    }
}

/// The value of what a user with debt may withdraw can be computed in 128 bits.
proof fn lemma_withdraw_value_fits(
    ua: LendingUserAccount,
    deposited: u64,
    available: u64,
    amount: u64,
    withdraw_max: bool,
    price: u128,
    conversion: nat,
)
    requires
        conversion > 0,
        spec_withdraw_limit(ua, deposited, available, amount, withdraw_max, price, conversion) is Done,
    ensures
        spec_withdraw_limit(ua, deposited, available, amount, withdraw_max, price, conversion)->Done_0 * price
            <= u128::MAX,
{
    let w = spec_withdraw_limit(ua, deposited, available, amount, withdraw_max, price, conversion)->Done_0;
    if withdraw_max {
        let td = ua.total_deposited_usd_value as int;
        let tb = ua.total_borrowed_usd_value as int;
        let mu = td - (tb * 100) / 70;
        let p = price as int;
        let c = conversion as int;
        let q = (mu * c) / p;
        assert(w as int <= q);
        assert(w * p <= mu * c) by (nonlinear_arith)
            requires
                0 <= w <= q,
                q == (mu * c) / p,
                mu > 0,
                p > 0,
                c > 0,
        {
            assert(q * p <= mu * c);
            assert(w * p <= q * p);
        }
    }
}

/// Two withdrawal contexts agree, the user account names compared by their characters.
pub open spec fn same_withdraw(a: WithdrawTokens, b: WithdrawTokens) -> bool {
    &&& same_user_account(a.lending_user_account, b.lending_user_account)
    &&& a == (WithdrawTokens { lending_user_account: a.lending_user_account, ..b })
}

/// Withdraws tokens from a sub market (see `spec_withdraw_tokens`); returns the
/// updated accounts and the transfer to make.
pub fn withdraw_tokens(
    ctx: WithdrawTokens,
    price_accounts: PriceAccounts,
    sub_market_index: u16,
    user_account_index: u8,
    amount: u64,
    withdraw_max: bool,
) -> (r: Result<(WithdrawTokens, Effects), LendingError>)
    requires
        !(spec_withdraw_tokens(ctx, price_accounts, sub_market_index, user_account_index, amount, withdraw_max) is Abort),
    ensures
        match spec_withdraw_tokens(ctx, price_accounts, sub_market_index, user_account_index, amount, withdraw_max) {
            Outcome::Done(p) => r matches Ok(q) && same_withdraw(q.0, p.0) && q.1 == p.1,
            Outcome::Fail(e) => r == Err::<(WithdrawTokens, Effects), LendingError>(e),
            Outcome::Abort => false,
        },
{
    let mut c = ctx;
    let ghost c0 = c;
    let ghost pa = price_accounts;
    if c.lending_user_account.total_borrowed_usd_value > 0 {
        if c.lending_user_account.last_health_update_clock_slot != c.clock_slot {
            return Err(LendingError::StaleTokenReserveOrLendingUser);
        }
    } else {
        ensure_monthly_statement(&mut c.lending_user_monthly_statement_account, &c.lending_user_tab_account,
            &c.lending_protocol, c.lending_user_monthly_statement_account_bump, c.token_reserve.token_id,
            c.sub_market_owner, sub_market_index, c.signer, user_account_index);
        crate::interest::update_token_reserve_supply_and_borrow_interest_change_index(&mut c.token_reserve,
            c.time_stamp, None)?;
        crate::user_interest::update_user_previous_interest_earned(&mut c.token_reserve, &mut c.sub_market,
            &mut c.lending_user_tab_account, &mut c.lending_user_monthly_statement_account)?;
    }
    let ghost s = (c.token_reserve, c.sub_market, c.lending_user_tab_account, c.lending_user_monthly_statement_account);

    let available = c.token_reserve_ata_amount;
    let deposited = c.lending_user_tab_account.deposited_amount;
    let mut withdraw_amount: u64 = if withdraw_max {
        if available <= deposited { available } else { deposited }
    } else {
        amount
    };
    let mut taken: Option<u128> = None;
    if c.lending_user_account.total_borrowed_usd_value > 0 {
        let temp = load_price_account(c.program_id, c.signer, price_accounts.temp_price_account)?;
        check_token_price_staleness(temp.slot, c.clock_slot)?;
        let price = get_verified_token_price(temp.data.as_slice(), c.token_reserve.token_id)?;
        let conversion = token_conversion_number(c.token_reserve.token_decimal_amount);
        proof { assert(pow10(c.token_reserve.token_decimal_amount as nat) > 0) by {
            crate::oracle::lemma_pow10_positive(c.token_reserve.token_decimal_amount as nat);
        } }
        let requested = withdraw_amount;
        withdraw_amount = withdraw_limit(&c.lending_user_account, deposited, available, requested,
            withdraw_max, price, conversion)?;
        proof {
            lemma_withdraw_value_fits(c.lending_user_account, deposited, available, requested, withdraw_max, price,
                conversion as nat);
        }
        let value = (withdraw_amount as u128 * price) / conversion;
        check_oracle_account(price_accounts.oracle_account, c.price_validator.address)?;
        taken = Some(value);
    }

    if c.lending_user_tab_account.deposited_amount < withdraw_amount {
        return Err(LendingError::InsufficientFunds);
    }
    if available < withdraw_amount {
        return Err(LendingError::InsufficientLiquidity);
    }

    c.lending_stats.withdrawals = c.lending_stats.withdrawals + 1;
    c.sub_market.deposited_amount = c.sub_market.deposited_amount - withdraw_amount as u128;
    c.token_reserve.deposited_amount = c.token_reserve.deposited_amount - withdraw_amount as u128;
    c.lending_user_tab_account.deposited_amount = c.lending_user_tab_account.deposited_amount - withdraw_amount;
    c.lending_user_monthly_statement_account.monthly_withdrawal_amount =
        c.lending_user_monthly_statement_account.monthly_withdrawal_amount + withdraw_amount;
    c.lending_user_monthly_statement_account.snap_shot_balance_amount = c.lending_user_tab_account.deposited_amount;

    rates_and_sync(&mut c.token_reserve, &mut c.sub_market, &mut c.lending_user_tab_account);
    record_activity(&mut c.token_reserve, &mut c.sub_market, &mut c.lending_user_monthly_statement_account,
        withdraw_amount, ACTIVITY_WITHDRAW);
    let refund = taken.is_some();
    match taken {
        Some(v) => {
            let td = c.lending_user_account.total_deposited_usd_value;
            c.lending_user_account.total_deposited_usd_value = if td >= v { td - v } else { 0 };
        },
        None => {},
    }
    Ok((c, Effects {
        into_reserve: None,
        out_of_reserve: Some(withdraw_amount),
        refund_oracle_fees: refund,
    }))
}

/// The accounts and readings a borrow works on.
pub struct BorrowTokens {
    pub program_id: Pubkey,
    pub signer: Pubkey,
    pub sub_market_owner: Pubkey,
    pub lending_protocol: LendingProtocol,
    pub lending_stats: LendingStats,
    pub price_validator: OraclePriceValidator,
    pub token_reserve: TokenReserve,
    pub sub_market: SubMarket,
    pub lending_user_account: LendingUserAccount,
    pub lending_user_tab_account: LendingUserTabAccount,
    pub lending_user_monthly_statement_account: LendingUserMonthlyStatementAccount,
    pub lending_user_tab_account_bump: u8,
    pub lending_user_monthly_statement_account_bump: u8,
    /// The balance of the token reserve's token account: what can be lent now.
    pub token_reserve_ata_amount: u64,
    pub time_stamp: u64,
    pub clock_slot: u64,
}

/// The amount lent and the user's new total debt value: the request when the debt
/// stays within 70% of the collateral, or for a maximal borrow the most that does,
/// capped by the reserve's liquidity.
pub open spec fn spec_borrow_limit(
    total_deposited: u128,
    total_borrowed: u128,
    amount: u64,
    borrow_max: bool,
    price: u128,
    conversion: nat,
    available: u64,
) -> Outcome<(u64, u128)> {
    if total_deposited * 70 > u128::MAX {
        Outcome::Abort
    } else {
        let max_debt = (total_deposited * 70) / 100;
        if !borrow_max {
            if amount * price > u128::MAX || total_borrowed + usd_value(amount as int, price as int, conversion as int) > u128::MAX {
                Outcome::Abort
            } else {
                let nb = total_borrowed + usd_value(amount as int, price as int, conversion as int);
                if max_debt >= nb { Outcome::Done((amount, nb as u128)) } else { Outcome::Fail(LendingError::LiquidationExposure) }
            }
        } else if max_debt > total_borrowed {
            let headroom = max_debt - total_borrowed;
            if headroom * conversion > u128::MAX || price == 0 {
                Outcome::Abort
            } else {
                let ba = min_int((headroom * conversion) / price as int, available as int) as u64;
                if ba * price > u128::MAX || total_borrowed + usd_value(ba as int, price as int, conversion as int) > u128::MAX {
                    Outcome::Abort
                } else {
                    let nb = total_borrowed + usd_value(ba as int, price as int, conversion as int);
                    if max_debt >= nb { Outcome::Done((ba, nb as u128)) } else { Outcome::Fail(LendingError::LiquidationExposure) }
                }
            }
        } else {
            Outcome::Fail(LendingError::LiquidationExposure)
        }
    }
}

/// The first part of a borrow: the reserve is brought up to date when it was not
/// refreshed in this slot, the user's health must be from this slot, and the tab and
/// statement are set up when new.
pub open spec fn spec_borrow_prelude(c: BorrowTokens, sub_market_index: u16, user_account_index: u8)
    -> Outcome<(TokenReserve, LendingUserAccount, LendingUserTabAccount, LendingUserMonthlyStatementAccount)> {
    let tr0: Outcome<TokenReserve> = if c.token_reserve.last_health_update_clock_slot != c.clock_slot {
        spec_step_index(c.token_reserve, c.time_stamp, None)
    } else {
        Outcome::Done(c.token_reserve)
    };
    match tr0 {
        Outcome::Fail(e) => Outcome::Fail(e),
        Outcome::Abort => Outcome::Abort,
        Outcome::Done(tr) => if c.lending_user_account.last_health_update_clock_slot != c.clock_slot {
            Outcome::Fail(LendingError::StaleTokenReserveOrLendingUser)
        } else {
            match spec_ensure_tab(c.lending_user_account, c.lending_user_tab_account, c.lending_protocol,
                c.lending_user_tab_account_bump, tr.token_id, c.sub_market_owner, sub_market_index, c.signer,
                user_account_index) {
                Outcome::Fail(e) => Outcome::Fail(e),
                Outcome::Abort => Outcome::Abort,
                Outcome::Done(p) => Outcome::Done((tr, p.0, p.1, spec_ensure_statement(
                    c.lending_user_monthly_statement_account, p.1, c.lending_protocol,
                    c.lending_user_monthly_statement_account_bump, tr.token_id, c.sub_market_owner, sub_market_index,
                    c.signer, user_account_index))),
            }
        },
    }
}

/// The last part of a borrow: the reserve must have the amount, the oracle account is
/// checked, the debt is booked, the rates recomputed and the activity recorded.
pub open spec fn spec_borrow_book(
    c: BorrowTokens,
    pa: PriceAccounts,
    s: (TokenReserve, LendingUserAccount, LendingUserTabAccount, LendingUserMonthlyStatementAccount),
    ba: u64,
    new_total_borrowed: u128,
) -> Outcome<(BorrowTokens, Effects)> {
    let (tr, ua, tab, st) = s;
    let sm = c.sub_market;
    if c.token_reserve_ata_amount < ba {
        Outcome::Fail(LendingError::InsufficientLiquidity)
    } else {
        match spec_oracle_check(pa.oracle_account, c.price_validator.address) {
            Err(e) => Outcome::Fail(e),
            Ok(_) => if c.lending_stats.borrows + 1 > u128::MAX
                || sm.borrowed_amount + ba > u128::MAX
                || tr.borrowed_amount + ba > u128::MAX
                || tab.borrowed_amount + ba > u64::MAX
                || st.monthly_borrowed_amount + ba > u64::MAX {
                Outcome::Abort
            } else {
                let tab1 = LendingUserTabAccount { borrowed_amount: (tab.borrowed_amount + ba) as u64, ..tab };
                match spec_step_rates_and_sync(
                    TokenReserve { borrowed_amount: (tr.borrowed_amount + ba) as u128, ..tr },
                    SubMarket { borrowed_amount: (sm.borrowed_amount + ba) as u128, ..sm },
                    tab1,
                ) {
                    Outcome::Done(p) => {
                        let st1 = LendingUserMonthlyStatementAccount {
                            monthly_borrowed_amount: (st.monthly_borrowed_amount + ba) as u64,
                            snap_shot_debt_amount: tab1.borrowed_amount,
                            ..st
                        };
                        let q = spec_record_activity(p.0, p.1, st1, ba, ACTIVITY_BORROW);
                        Outcome::Done((
                            BorrowTokens {
                                lending_stats: LendingStats { borrows: (c.lending_stats.borrows + 1) as u128, ..c.lending_stats },
                                token_reserve: q.0,
                                sub_market: q.1,
                                lending_user_account: LendingUserAccount { total_borrowed_usd_value: new_total_borrowed, ..ua },
                                lending_user_tab_account: p.2,
                                lending_user_monthly_statement_account: q.2,
                                ..c
                            },
                            Effects {
                                into_reserve: None,
                                out_of_reserve: Some(ba),
                                refund_oracle_fees: true,
                            },
                        ))
                    },
                    Outcome::Fail(e) => Outcome::Fail(e),
                    Outcome::Abort => Outcome::Abort,
                }
            },
        }
    }
}

/// A borrow of `amount` tokens (or of as much as is allowed, for `borrow_max`).
pub open spec fn spec_borrow_tokens(
    c: BorrowTokens,
    pa: PriceAccounts,
    sub_market_index: u16,
    user_account_index: u8,
    amount: u64,
    borrow_max: bool,
) -> Outcome<(BorrowTokens, Effects)> {
    match spec_borrow_prelude(c, sub_market_index, user_account_index) {
        Outcome::Fail(e) => Outcome::Fail(e),
        Outcome::Abort => Outcome::Abort,
        Outcome::Done(s) => match spec_step_load_prices(c.program_id, c.signer, pa.temp_price_account) {
            Outcome::Fail(e) => Outcome::Fail(e),
            Outcome::Abort => Outcome::Abort,
            Outcome::Done(temp) => if !price_is_fresh(temp.slot, c.clock_slot) {
                Outcome::Fail(LendingError::OracleDataStale)
            } else {
                match spec_price_lookup(temp.data@, s.0.token_id) {
                    None => Outcome::Fail(LendingError::OraclePriceNotFound),
                    Some(price) => if s.0.token_decimal_amount > 38 {
                        Outcome::Abort
                    } else {
                        match spec_borrow_limit(s.1.total_deposited_usd_value, s.1.total_borrowed_usd_value, amount,
                            borrow_max, price, pow10(s.0.token_decimal_amount as nat), c.token_reserve_ata_amount) {
                            Outcome::Done(b) => spec_borrow_book(c, pa, s, b.0, b.1),
                            Outcome::Fail(e) => Outcome::Fail(e),
                            Outcome::Abort => Outcome::Abort,
                        }
                    },
                }
            },
        },
    }
}

/// Computes the amount lent and the new total debt value (see `spec_borrow_limit`).
fn borrow_limit(
    total_deposited: u128,
    total_borrowed: u128,
    amount: u64,
    borrow_max: bool,
    price: u128,
    conversion: u128,
    available: u64,
) -> (r: Result<(u64, u128), LendingError>)
    requires
        conversion > 0,
        !(spec_borrow_limit(total_deposited, total_borrowed, amount, borrow_max, price, conversion as nat, available) is Abort),
    ensures
        match spec_borrow_limit(total_deposited, total_borrowed, amount, borrow_max, price, conversion as nat, available) {
            Outcome::Done(b) => r == Ok::<(u64, u128), LendingError>(b),
            Outcome::Fail(e) => r == Err::<(u64, u128), LendingError>(e),
            Outcome::Abort => false,
        },
{
    let max_debt = (total_deposited * 70) / 100;
    let mut borrow_amount = amount;
    if !borrow_max {
        let new_total = total_borrowed + (borrow_amount as u128 * price) / conversion;
        if max_debt >= new_total { Ok((borrow_amount, new_total)) } else { Err(LendingError::LiquidationExposure) }
    } else if max_debt > total_borrowed {
        let headroom = max_debt - total_borrowed;
        let max_tokens = (headroom * conversion) / price;
        borrow_amount = if max_tokens <= available as u128 { max_tokens as u64 } else { available };
        let new_total = total_borrowed + (borrow_amount as u128 * price) / conversion;
        if max_debt >= new_total { Ok((borrow_amount, new_total)) } else { Err(LendingError::LiquidationExposure) }
    } else {
        Err(LendingError::LiquidationExposure)
    }
}

/// Two borrow contexts agree, the user account names compared by their characters.
pub open spec fn same_borrow(a: BorrowTokens, b: BorrowTokens) -> bool {
    &&& same_user_account(a.lending_user_account, b.lending_user_account)
    &&& a == (BorrowTokens { lending_user_account: a.lending_user_account, ..b })
}

/// Borrows tokens from a sub market (see `spec_borrow_tokens`); returns the updated
/// accounts and the transfer to make.
pub fn borrow_tokens(
    ctx: BorrowTokens,
    price_accounts: PriceAccounts,
    sub_market_index: u16,
    user_account_index: u8,
    amount: u64,
    borrow_max: bool,
) -> (r: Result<(BorrowTokens, Effects), LendingError>)
    requires
        !(spec_borrow_tokens(ctx, price_accounts, sub_market_index, user_account_index, amount, borrow_max) is Abort),
    ensures
        match spec_borrow_tokens(ctx, price_accounts, sub_market_index, user_account_index, amount, borrow_max) {
            Outcome::Done(p) => r matches Ok(q) && same_borrow(q.0, p.0) && q.1 == p.1,
            Outcome::Fail(e) => r == Err::<(BorrowTokens, Effects), LendingError>(e),
            Outcome::Abort => false,
        },
{
    let mut c = ctx;
    let ghost c0 = c;
    let ghost pa = price_accounts;
    if c.token_reserve.last_health_update_clock_slot != c.clock_slot {
        crate::interest::update_token_reserve_supply_and_borrow_interest_change_index(&mut c.token_reserve,
            c.time_stamp, None)?;
    }
    if c.lending_user_account.last_health_update_clock_slot != c.clock_slot {
        return Err(LendingError::StaleTokenReserveOrLendingUser);
    }
    ensure_lending_user_tab_account(&mut c.lending_user_account, &mut c.lending_user_tab_account,
        &c.lending_protocol, c.lending_user_tab_account_bump, c.token_reserve.token_id, c.sub_market_owner,
        sub_market_index, c.signer, user_account_index)?;
    ensure_monthly_statement(&mut c.lending_user_monthly_statement_account, &c.lending_user_tab_account,
        &c.lending_protocol, c.lending_user_monthly_statement_account_bump, c.token_reserve.token_id,
        c.sub_market_owner, sub_market_index, c.signer, user_account_index);
    let ghost s = (c.token_reserve, c.lending_user_account, c.lending_user_tab_account,
        c.lending_user_monthly_statement_account);

    let temp = load_price_account(c.program_id, c.signer, price_accounts.temp_price_account)?;
    check_token_price_staleness(temp.slot, c.clock_slot)?;
    let price = get_verified_token_price(temp.data.as_slice(), c.token_reserve.token_id)?;
    let conversion = token_conversion_number(c.token_reserve.token_decimal_amount);
    proof { crate::oracle::lemma_pow10_positive(c.token_reserve.token_decimal_amount as nat); }
    let available = c.token_reserve_ata_amount;
    let (borrow_amount, new_total_borrowed) = borrow_limit(c.lending_user_account.total_deposited_usd_value,
        c.lending_user_account.total_borrowed_usd_value, amount, borrow_max, price, conversion, available)?;
    c.lending_user_account.total_borrowed_usd_value = new_total_borrowed;

    if available < borrow_amount {
        return Err(LendingError::InsufficientLiquidity);
    }
    check_oracle_account(price_accounts.oracle_account, c.price_validator.address)?;

    c.lending_stats.borrows = c.lending_stats.borrows + 1;
    c.sub_market.borrowed_amount = c.sub_market.borrowed_amount + borrow_amount as u128;
    c.token_reserve.borrowed_amount = c.token_reserve.borrowed_amount + borrow_amount as u128;
    c.lending_user_tab_account.borrowed_amount = c.lending_user_tab_account.borrowed_amount + borrow_amount;
    c.lending_user_monthly_statement_account.monthly_borrowed_amount =
        c.lending_user_monthly_statement_account.monthly_borrowed_amount + borrow_amount;
    c.lending_user_monthly_statement_account.snap_shot_debt_amount = c.lending_user_tab_account.borrowed_amount;

    rates_and_sync(&mut c.token_reserve, &mut c.sub_market, &mut c.lending_user_tab_account);
    record_activity(&mut c.token_reserve, &mut c.sub_market, &mut c.lending_user_monthly_statement_account,
        borrow_amount, ACTIVITY_BORROW);
    Ok((c, Effects {
        into_reserve: None,
        out_of_reserve: Some(borrow_amount),
        refund_oracle_fees: true,
    }))
}

/// The accounts and readings a repayment works on.
pub struct RepayTokens {
    pub program_id: Pubkey,
    pub signer: Pubkey,
    pub sub_market_owner: Pubkey,
    pub price_validator: OraclePriceValidator,
    pub lending_stats: LendingStats,
    pub token_reserve: TokenReserve,
    pub sub_market: SubMarket,
    pub lending_user_account: LendingUserAccount,
    pub lending_user_tab_account: LendingUserTabAccount,
    pub lending_user_monthly_statement_account: LendingUserMonthlyStatementAccount,
    pub clock_slot: u64,
}

/// The amount a repayment asks for: the whole debt, a tenth of it, or the amount given.
pub open spec fn spec_requested_repayment(debt: u64, amount: u64, pay_off_loan: bool, pay_10_percent: bool) -> int {
    if pay_off_loan {
        debt as int
    } else if pay_10_percent {
        (debt * 10) / 100
    } else {
        amount as int
    }
}

/// A repayment of debt: the user's health must be from this slot; an account at 80% or
/// more of its collateral must repay at least a tenth of the tab's debt; no more than
/// the debt can be repaid; the debt value is lowered by the repayment's value.
pub open spec fn spec_repay_tokens(
    c: RepayTokens,
    pa: PriceAccounts,
    amount: u64,
    pay_off_loan: bool,
    pay_10_percent: bool,
) -> Outcome<(RepayTokens, Effects)> {
    let ua = c.lending_user_account;
    let tab = c.lending_user_tab_account;
    if ua.last_health_update_clock_slot != c.clock_slot {
        Outcome::Fail(LendingError::StaleTokenReserveOrLendingUser)
    } else if (pay_off_loan == false && pay_10_percent && tab.borrowed_amount * 10 > u64::MAX)
        || ua.total_deposited_usd_value * 80 > u128::MAX {
        Outcome::Abort
    } else {
        let r = spec_requested_repayment(tab.borrowed_amount, amount, pay_off_loan, pay_10_percent);
        if ua.total_borrowed_usd_value >= (ua.total_deposited_usd_value * 80) / 100 && tab.borrowed_amount * 10 > u64::MAX {
            Outcome::Abort
        } else if ua.total_borrowed_usd_value >= (ua.total_deposited_usd_value * 80) / 100
            && r < (tab.borrowed_amount * 10) / 100 {
            Outcome::Fail(LendingError::GriefingRepayment)
        } else if tab.borrowed_amount < r {
            Outcome::Fail(LendingError::TooManyFunds)
        } else {
            match spec_step_load_prices(c.program_id, c.signer, pa.temp_price_account) {
                Outcome::Fail(e) => Outcome::Fail(e),
                Outcome::Abort => Outcome::Abort,
                Outcome::Done(temp) => if !price_is_fresh(temp.slot, c.clock_slot) {
                    Outcome::Fail(LendingError::OracleDataStale)
                } else {
                    match spec_price_lookup(temp.data@, c.token_reserve.token_id) {
                        None => Outcome::Fail(LendingError::OraclePriceNotFound),
                        Some(price) => if c.token_reserve.token_decimal_amount > 38 || r * price > u128::MAX {
                            Outcome::Abort
                        } else {
                            match spec_oracle_check(pa.oracle_account, c.price_validator.address) {
                                Err(e) => Outcome::Fail(e),
                                Ok(_) => spec_repay_book(c, r as u64,
                                    usd_value(r, price as int, pow10(c.token_reserve.token_decimal_amount as nat) as int)),
                            }
                        },
                    }
                },
            }
        }
    }
}

/// The last part of a repayment: the debt is booked down, the rates recomputed and
/// the activity recorded.
pub open spec fn spec_repay_book(c: RepayTokens, r: u64, repayment_value: int) -> Outcome<(RepayTokens, Effects)> {
    let (tr, sm, tab, st) = (c.token_reserve, c.sub_market, c.lending_user_tab_account,
        c.lending_user_monthly_statement_account);
    let ua = c.lending_user_account;
    if c.lending_stats.repayments + 1 > u128::MAX
        || sm.borrowed_amount < r || sm.repaid_debt_amount + r > u128::MAX
        || tr.borrowed_amount < r || tr.repaid_debt_amount + r > u128::MAX
        || tab.repaid_debt_amount + r > u64::MAX
        || st.monthly_repaid_debt_amount + r > u64::MAX {
        Outcome::Abort
    } else {
        let tab1 = LendingUserTabAccount {
            borrowed_amount: (tab.borrowed_amount - r) as u64,
            repaid_debt_amount: (tab.repaid_debt_amount + r) as u64,
            ..tab
        };
        match spec_step_rates_and_sync(
            TokenReserve {
                borrowed_amount: (tr.borrowed_amount - r) as u128,
                repaid_debt_amount: (tr.repaid_debt_amount + r) as u128,
                ..tr
            },
            SubMarket {
                borrowed_amount: (sm.borrowed_amount - r) as u128,
                repaid_debt_amount: (sm.repaid_debt_amount + r) as u128,
                ..sm
            },
            tab1,
        ) {
            Outcome::Done(p) => {
                let st1 = LendingUserMonthlyStatementAccount {
                    monthly_repaid_debt_amount: (st.monthly_repaid_debt_amount + r) as u64,
                    snap_shot_debt_amount: tab1.borrowed_amount,
                    ..st
                };
                let q = spec_record_activity(p.0, p.1, st1, r, ACTIVITY_REPAY);
                Outcome::Done((
                    RepayTokens {
                        lending_stats: LendingStats { repayments: (c.lending_stats.repayments + 1) as u128, ..c.lending_stats },
                        token_reserve: q.0,
                        sub_market: q.1,
                        lending_user_account: LendingUserAccount {
                            total_borrowed_usd_value: if ua.total_borrowed_usd_value >= repayment_value {
                                (ua.total_borrowed_usd_value - repayment_value) as u128
                            } else {
                                0
                            },
                            ..ua
                        },
                        lending_user_tab_account: p.2,
                        lending_user_monthly_statement_account: q.2,
                        ..c
                    },
                    Effects {
                        into_reserve: Some(r),
                        out_of_reserve: None,
                        refund_oracle_fees: true,
                    },
                ))
            },
            Outcome::Fail(e) => Outcome::Fail(e),
            Outcome::Abort => Outcome::Abort,
        }
    }
}

/// Two repayment contexts agree, the user account names compared by their characters.
pub open spec fn same_repay(a: RepayTokens, b: RepayTokens) -> bool {
    &&& same_user_account(a.lending_user_account, b.lending_user_account)
    &&& a == (RepayTokens { lending_user_account: a.lending_user_account, ..b })
}

/// Repays debt in a sub market (see `spec_repay_tokens`); returns the updated accounts
/// and the transfer to make.
pub fn repay_tokens(
    ctx: RepayTokens,
    price_accounts: PriceAccounts,
    amount: u64,
    pay_off_loan: bool,
    pay_10_percent: bool,
) -> (r: Result<(RepayTokens, Effects), LendingError>)
    requires
        !(spec_repay_tokens(ctx, price_accounts, amount, pay_off_loan, pay_10_percent) is Abort),
    ensures
        match spec_repay_tokens(ctx, price_accounts, amount, pay_off_loan, pay_10_percent) {
            Outcome::Done(p) => r matches Ok(q) && same_repay(q.0, p.0) && q.1 == p.1,
            Outcome::Fail(e) => r == Err::<(RepayTokens, Effects), LendingError>(e),
            Outcome::Abort => false,
        },
{
    let mut c = ctx;
    let ghost c0 = c;
    if c.lending_user_account.last_health_update_clock_slot != c.clock_slot {
        return Err(LendingError::StaleTokenReserveOrLendingUser);
    }
    let debt = c.lending_user_tab_account.borrowed_amount;
    let repayment_amount: u64 = if pay_off_loan {
        debt
    } else if pay_10_percent {
        (debt * 10) / 100
    } else {
        amount
    };
    let eighty_percent = (c.lending_user_account.total_deposited_usd_value * 80) / 100;
    if c.lending_user_account.total_borrowed_usd_value >= eighty_percent {
        let ten_percent = (debt * 10) / 100;
        if repayment_amount < ten_percent {
            return Err(LendingError::GriefingRepayment);
        }
    }
    if debt < repayment_amount {
        return Err(LendingError::TooManyFunds);
    }
    let temp = load_price_account(c.program_id, c.signer, price_accounts.temp_price_account)?;
    check_token_price_staleness(temp.slot, c.clock_slot)?;
    let price = get_verified_token_price(temp.data.as_slice(), c.token_reserve.token_id)?;
    let conversion = token_conversion_number(c.token_reserve.token_decimal_amount);
    proof { crate::oracle::lemma_pow10_positive(c.token_reserve.token_decimal_amount as nat); }
    let repayment_value = (repayment_amount as u128 * price) / conversion;
    c.lending_user_account.total_borrowed_usd_value =
        c.lending_user_account.total_borrowed_usd_value.saturating_sub(repayment_value);
    check_oracle_account(price_accounts.oracle_account, c.price_validator.address)?;

    c.lending_stats.repayments = c.lending_stats.repayments + 1;
    c.sub_market.borrowed_amount = c.sub_market.borrowed_amount - repayment_amount as u128;
    c.sub_market.repaid_debt_amount = c.sub_market.repaid_debt_amount + repayment_amount as u128;
    c.token_reserve.borrowed_amount = c.token_reserve.borrowed_amount - repayment_amount as u128;
    c.token_reserve.repaid_debt_amount = c.token_reserve.repaid_debt_amount + repayment_amount as u128;
    c.lending_user_tab_account.borrowed_amount = c.lending_user_tab_account.borrowed_amount - repayment_amount;
    c.lending_user_tab_account.repaid_debt_amount = c.lending_user_tab_account.repaid_debt_amount + repayment_amount;
    c.lending_user_monthly_statement_account.monthly_repaid_debt_amount =
        c.lending_user_monthly_statement_account.monthly_repaid_debt_amount + repayment_amount;
    c.lending_user_monthly_statement_account.snap_shot_debt_amount = c.lending_user_tab_account.borrowed_amount;

    rates_and_sync(&mut c.token_reserve, &mut c.sub_market, &mut c.lending_user_tab_account);
    record_activity(&mut c.token_reserve, &mut c.sub_market, &mut c.lending_user_monthly_statement_account,
        repayment_amount, ACTIVITY_REPAY);
    Ok((c, Effects {
        into_reserve: Some(repayment_amount),
        out_of_reserve: None,
        refund_oracle_fees: true,
    }))
}

} // verus!
