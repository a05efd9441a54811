use vstd::prelude::*;
use crate::errors::LendingError;
use crate::structs::{
    Pubkey, keys_equal, TempOraclePriceAccount, LendingProtocol, TokenReserve, SubMarket, LendingUserAccount, LendingUserTabAccount,
    LendingUserMonthlyStatementAccount,
};
use crate::initialization::{
    spec_init_user_account, spec_init_tab, spec_init_statement, initialize_lending_user_account,
    initialize_lending_user_tab_account, initialize_lending_user_monthly_statement_account,
};
use crate::interest::{index_update_computable, index_update_succeeds, spec_update_index};
use crate::user_interest::{
    earned_computable, earned_succeeds, spec_settle_earned, accrued_computable, accrued_succeeds,
    spec_settle_accrued,
};
use crate::rates::{rates_computable, spec_update_rates};
use crate::validation::{is_program_address, price_data_seeds, validate_and_return_temp_price_account};

verus! {

/// How an instruction (or one of its steps) ends: with its result, with an error, or
/// by aborting on an arithmetic overflow or a division by zero.
pub enum Outcome<T> {
    Done(T),
    Fail(LendingError),
    Abort,
}

/// Lending activity codes recorded as an account's last activity.
pub const ACTIVITY_DEPOSIT: u8 = 0;
pub const ACTIVITY_WITHDRAW: u8 = 1;
pub const ACTIVITY_BORROW: u8 = 2;
pub const ACTIVITY_REPAY: u8 = 3;
pub const ACTIVITY_LIQUIDATE: u8 = 4;
pub const ACTIVITY_COLLECT_SUB_MARKET_FEES: u8 = 5;
pub const ACTIVITY_COLLECT_SOLVENCY_FEES: u8 = 6;
pub const ACTIVITY_COLLECT_LIQUIDATION_FEES: u8 = 7;

/// Some string whose characters are `v`.
pub open spec fn string_of(v: Seq<char>) -> String {
    choose|s: String| s@ == v
}

/// Two lending user accounts agree, their names compared by their characters.
pub open spec fn same_user_account(a: LendingUserAccount, b: LendingUserAccount) -> bool {
    &&& a.account_name@ == b.account_name@
    &&& a == (LendingUserAccount { account_name: a.account_name, ..b })
}

/// The name a new account gets: the one given when it is not empty, else the default.
pub open spec fn chosen_name(given: Option<String>, default_name: Seq<char>) -> Seq<char> {
    match given {
        Some(n) => if n@.len() > 0 { n@ } else { default_name },
        None => default_name,
    }
}

/// Sets up the lending user account when it is new: a look up table must be given
/// and the chosen name must be at most 25 characters long.
pub open spec fn spec_ensure_user_account(
    a: LendingUserAccount,
    given_name: Option<String>,
    default_name: Seq<char>,
    look_up_table_address: Option<Pubkey>,
    bump: u8,
    owner: Pubkey,
    user_account_index: u8,
) -> Outcome<LendingUserAccount> {
    if a.lending_user_account_added {
        Outcome::Done(a)
    } else {
        match look_up_table_address {
            None => Outcome::Fail(LendingError::MissingLendingUserLookUpTable),
            Some(lut) => {
                let name = chosen_name(given_name, default_name);
                if name.len() > 25 {
                    Outcome::Fail(LendingError::LendingUserAccountNameTooLong)
                } else {
                    Outcome::Done(spec_init_user_account(a, bump, owner, user_account_index, string_of(name), lut))
                }
            },
        }
    }
}

/// Sets up the lending user account when it is new (see `spec_ensure_user_account`).
pub fn ensure_lending_user_account(
    lending_user_account: &mut LendingUserAccount,
    given_name: Option<String>,
    default_name: &str,
    look_up_table_address: Option<Pubkey>,
    bump: u8,
    owner: Pubkey,
    user_account_index: u8,
) -> (r: Result<(), LendingError>)
    ensures
        match spec_ensure_user_account(*old(lending_user_account), given_name, default_name@, look_up_table_address,
            bump, owner, user_account_index) {
            Outcome::Done(a) => r is Ok && same_user_account(*final(lending_user_account), a),
            Outcome::Fail(e) => r == Err::<(), LendingError>(e),
            Outcome::Abort => false,
        },
{
    if lending_user_account.lending_user_account_added {
        return Ok(());
    }
    let mut name: String = default_name.to_owned();
    match given_name {
        Some(n) => {
            if !n.as_str().is_empty() {
                name = n;
            }
        },
        None => {},
    }
    let ghost v = name@;
    let lut = match look_up_table_address {
        Some(l) => l,
        None => { return Err(LendingError::MissingLendingUserLookUpTable); },
    };
    proof {
        assert(v == chosen_name(given_name, default_name@));
        assert(string_of(v)@ == v) by {
            assert(exists|s: String| s@ == v) by { assert(name@ == v); }
        }
    }
    initialize_lending_user_account(lending_user_account, bump, owner, user_account_index, name, lut)
}

/// Sets up the tab account when it is new, as the user's next tab.
pub open spec fn spec_ensure_tab(
    a: LendingUserAccount,
    tab: LendingUserTabAccount,
    lending_protocol: LendingProtocol,
    bump: u8,
    token_id: u8,
    sub_market_owner_address: Pubkey,
    sub_market_index: u16,
    owner: Pubkey,
    user_account_index: u8,
) -> Outcome<(LendingUserAccount, LendingUserTabAccount)> {
    if tab.user_tab_account_added {
        Outcome::Done((a, tab))
    } else if a.tab_account_count == u8::MAX {
        Outcome::Abort
    } else if a.tab_account_count + 1 > lending_protocol.max_tabs_per_lending_account {
        Outcome::Fail(LendingError::TooManyTabAccounts)
    } else {
        Outcome::Done((
            LendingUserAccount { tab_account_count: (a.tab_account_count + 1) as u8, ..a },
            spec_init_tab(tab, a.tab_account_count, bump, token_id, sub_market_owner_address, sub_market_index,
                owner, user_account_index),
        ))
    }
}

/// Sets up the tab account when it is new (see `spec_ensure_tab`).
pub fn ensure_lending_user_tab_account(
    lending_user_account: &mut LendingUserAccount,
    lending_user_tab_account: &mut LendingUserTabAccount,
    lending_protocol: &LendingProtocol,
    bump: u8,
    token_id: u8,
    sub_market_owner_address: Pubkey,
    sub_market_index: u16,
    owner: Pubkey,
    user_account_index: u8,
) -> (r: Result<(), LendingError>)
    requires
        !(spec_ensure_tab(*old(lending_user_account), *old(lending_user_tab_account), *lending_protocol, bump, token_id,
            sub_market_owner_address, sub_market_index, owner, user_account_index) is Abort),
    ensures
        match spec_ensure_tab(*old(lending_user_account), *old(lending_user_tab_account), *lending_protocol, bump,
            token_id, sub_market_owner_address, sub_market_index, owner, user_account_index) {
            Outcome::Done(p) => r is Ok && same_user_account(*final(lending_user_account), p.0)
                && *final(lending_user_tab_account) == p.1,
            Outcome::Fail(e) => r == Err::<(), LendingError>(e),
            Outcome::Abort => false,
        },
{
    if lending_user_tab_account.user_tab_account_added {
        return Ok(());
    }
    initialize_lending_user_tab_account(lending_user_account, lending_user_tab_account, lending_protocol, bump,
        token_id, sub_market_owner_address, sub_market_index, owner, user_account_index)
}

/// Opens the monthly statement when it is new.
pub open spec fn spec_ensure_statement(
    stmt: LendingUserMonthlyStatementAccount,
    tab: LendingUserTabAccount,
    lending_protocol: LendingProtocol,
    bump: u8,
    token_id: u8,
    sub_market_owner_address: Pubkey,
    sub_market_index: u16,
    owner: Pubkey,
    user_account_index: u8,
) -> LendingUserMonthlyStatementAccount {
    if stmt.monthly_statement_account_added {
        stmt
    } else {
        spec_init_statement(stmt, tab, lending_protocol, bump, token_id, sub_market_owner_address, sub_market_index,
            owner, user_account_index)
    }
}

/// Opens the monthly statement when it is new.
pub fn ensure_monthly_statement(
    stmt: &mut LendingUserMonthlyStatementAccount,
    tab: &LendingUserTabAccount,
    lending_protocol: &LendingProtocol,
    bump: u8,
    token_id: u8,
    sub_market_owner_address: Pubkey,
    sub_market_index: u16,
    owner: Pubkey,
    user_account_index: u8,
)
    ensures
        *final(stmt) == spec_ensure_statement(*old(stmt), *tab, *lending_protocol, bump, token_id,
            sub_market_owner_address, sub_market_index, owner, user_account_index),
{
    if !stmt.monthly_statement_account_added {
        let _ = initialize_lending_user_monthly_statement_account(stmt, tab, lending_protocol, bump, token_id,
            sub_market_owner_address, sub_market_index, owner, user_account_index);
    }
}

/// Advances a token reserve's interest indexes, as a step.
pub open spec fn spec_step_index(tr: TokenReserve, time_stamp: u64, clock_slot: Option<u64>) -> Outcome<TokenReserve> {
    if !index_update_computable(tr, time_stamp) {
        Outcome::Abort
    } else if !index_update_succeeds(tr, time_stamp) {
        Outcome::Fail(LendingError::ArithmeticOverflow)
    } else {
        Outcome::Done(spec_update_index(tr, time_stamp, clock_slot))
    }
}

/// Settles a tab's earned interest, as a step.
pub open spec fn spec_step_earned(
    tr: TokenReserve,
    sm: SubMarket,
    tab: LendingUserTabAccount,
    stmt: LendingUserMonthlyStatementAccount,
) -> Outcome<(TokenReserve, SubMarket, LendingUserTabAccount, LendingUserMonthlyStatementAccount)> {
    if !earned_computable(tr, sm, tab, stmt) {
        Outcome::Abort
    } else if !earned_succeeds(tr, sm, tab) {
        Outcome::Fail(LendingError::ArithmeticOverflow)
    } else {
        Outcome::Done(spec_settle_earned(tr, sm, tab, stmt))
    }
}

/// Settles a tab's accrued interest, as a step.
pub open spec fn spec_step_accrued(
    tr: TokenReserve,
    sm: SubMarket,
    tab: LendingUserTabAccount,
    stmt: LendingUserMonthlyStatementAccount,
) -> Outcome<(TokenReserve, SubMarket, LendingUserTabAccount, LendingUserMonthlyStatementAccount)> {
    if !accrued_computable(tr, sm, tab, stmt) {
        Outcome::Abort
    } else if !accrued_succeeds(tr, tab) {
        Outcome::Fail(LendingError::ArithmeticOverflow)
    } else {
        Outcome::Done(spec_settle_accrued(tr, sm, tab, stmt))
    }
}

/// Settles a tab's earned and then its accrued interest.
pub open spec fn spec_step_settle_tab(
    tr: TokenReserve,
    sm: SubMarket,
    tab: LendingUserTabAccount,
    stmt: LendingUserMonthlyStatementAccount,
) -> Outcome<(TokenReserve, SubMarket, LendingUserTabAccount, LendingUserMonthlyStatementAccount)> {
    match spec_step_earned(tr, sm, tab, stmt) {
        Outcome::Done(s) => spec_step_accrued(s.0, s.1, s.2, s.3),
        Outcome::Fail(e) => Outcome::Fail(e),
        Outcome::Abort => Outcome::Abort,
    }
}

/// Advances the token reserve's indexes, then settles a tab's earned and accrued interest.
pub open spec fn spec_step_refresh(
    tr: TokenReserve,
    sm: SubMarket,
    tab: LendingUserTabAccount,
    stmt: LendingUserMonthlyStatementAccount,
    time_stamp: u64,
) -> Outcome<(TokenReserve, SubMarket, LendingUserTabAccount, LendingUserMonthlyStatementAccount)> {
    match spec_step_index(tr, time_stamp, None) {
        Outcome::Done(tr1) => spec_step_settle_tab(tr1, sm, tab, stmt),
        Outcome::Fail(e) => Outcome::Fail(e),
        Outcome::Abort => Outcome::Abort,
    }
}

/// Settles a tab's earned and then its accrued interest.
pub fn settle_tab(
    tr: &mut TokenReserve,
    sm: &mut SubMarket,
    tab: &mut LendingUserTabAccount,
    stmt: &mut LendingUserMonthlyStatementAccount,
) -> (r: Result<(), LendingError>)
    requires
        !(spec_step_settle_tab(*old(tr), *old(sm), *old(tab), *old(stmt)) is Abort),
    ensures
        match spec_step_settle_tab(*old(tr), *old(sm), *old(tab), *old(stmt)) {
            Outcome::Done(s) => r is Ok && (*final(tr), *final(sm), *final(tab), *final(stmt)) == s,
            Outcome::Fail(e) => r == Err::<(), LendingError>(e),
            Outcome::Abort => false,
        },
{
    crate::user_interest::update_user_previous_interest_earned(tr, sm, tab, stmt)?;
    crate::user_interest::update_user_previous_interest_accrued(tr, sm, tab, stmt)
}

/// Advances the token reserve's indexes, then settles a tab's earned and accrued interest.
pub fn refresh_tab(
    tr: &mut TokenReserve,
    sm: &mut SubMarket,
    tab: &mut LendingUserTabAccount,
    stmt: &mut LendingUserMonthlyStatementAccount,
    time_stamp: u64,
) -> (r: Result<(), LendingError>)
    requires
        !(spec_step_refresh(*old(tr), *old(sm), *old(tab), *old(stmt), time_stamp) is Abort),
    ensures
        match spec_step_refresh(*old(tr), *old(sm), *old(tab), *old(stmt), time_stamp) {
            Outcome::Done(s) => r is Ok && (*final(tr), *final(sm), *final(tab), *final(stmt)) == s,
            Outcome::Fail(e) => r == Err::<(), LendingError>(e),
            Outcome::Abort => false,
        },
{
    crate::interest::update_token_reserve_supply_and_borrow_interest_change_index(tr, time_stamp, None)?;
    settle_tab(tr, sm, tab, stmt)
}

/// Recomputes the reserve's rates and copies its indexes to the sub market and the tab.
pub open spec fn spec_step_rates_and_sync(
    tr: TokenReserve,
    sm: SubMarket,
    tab: LendingUserTabAccount,
) -> Outcome<(TokenReserve, SubMarket, LendingUserTabAccount)> {
    if !rates_computable(tr) {
        Outcome::Abort
    } else {
        let tr1 = spec_update_rates(tr);
        Outcome::Done((
            tr1,
            SubMarket {
                supply_interest_change_index: tr1.supply_interest_change_index,
                borrow_interest_change_index: tr1.borrow_interest_change_index,
                ..sm
            },
            sync_tab(tab, tr1),
        ))
    }
}

/// A tab with the token reserve's current interest indexes recorded.
pub open spec fn sync_tab(tab: LendingUserTabAccount, tr: TokenReserve) -> LendingUserTabAccount {
    LendingUserTabAccount {
        supply_interest_change_index: tr.supply_interest_change_index,
        borrow_interest_change_index: tr.borrow_interest_change_index,
        ..tab
    }
}

/// Recomputes the reserve's rates and copies its indexes to the sub market and the tab.
pub fn rates_and_sync(tr: &mut TokenReserve, sm: &mut SubMarket, tab: &mut LendingUserTabAccount)
    requires
        rates_computable(*old(tr)),
    ensures
        spec_step_rates_and_sync(*old(tr), *old(sm), *old(tab)) == Outcome::Done((*final(tr), *final(sm), *final(tab))),
{
    crate::rates::update_token_reserve_rates(tr);
    sm.supply_interest_change_index = tr.supply_interest_change_index;
    sm.borrow_interest_change_index = tr.borrow_interest_change_index;
    tab.supply_interest_change_index = tr.supply_interest_change_index;
    tab.borrow_interest_change_index = tr.borrow_interest_change_index;
}

/// Records a lending activity on the reserve, the sub market and the statement.
pub open spec fn spec_record_activity(
    tr: TokenReserve,
    sm: SubMarket,
    stmt: LendingUserMonthlyStatementAccount,
    amount: u64,
    activity: u8,
) -> (TokenReserve, SubMarket, LendingUserMonthlyStatementAccount) {
    (
        TokenReserve { last_lending_activity_amount: amount, last_lending_activity_type: activity, ..tr },
        SubMarket {
            last_lending_activity_amount: amount,
            last_lending_activity_type: activity,
            last_lending_activity_time_stamp: tr.last_lending_activity_time_stamp,
            ..sm
        },
        LendingUserMonthlyStatementAccount {
            last_lending_activity_amount: amount,
            last_lending_activity_type: activity,
            last_lending_activity_time_stamp: tr.last_lending_activity_time_stamp,
            ..stmt
        },
    )
}

/// Records a lending activity on the reserve, the sub market and the statement.
pub fn record_activity(
    tr: &mut TokenReserve,
    sm: &mut SubMarket,
    stmt: &mut LendingUserMonthlyStatementAccount,
    amount: u64,
    activity: u8,
)
    ensures
        (*final(tr), *final(sm), *final(stmt)) == spec_record_activity(*old(tr), *old(sm), *old(stmt), amount, activity),
{
    tr.last_lending_activity_amount = amount;
    tr.last_lending_activity_type = activity;
    sm.last_lending_activity_amount = amount;
    sm.last_lending_activity_type = activity;
    sm.last_lending_activity_time_stamp = tr.last_lending_activity_time_stamp;
    stmt.last_lending_activity_amount = amount;
    stmt.last_lending_activity_type = activity;
    stmt.last_lending_activity_time_stamp = tr.last_lending_activity_time_stamp;
}

/// Whether the user's temporary wrapped SOL token account is closed after a transfer
/// into a reserve: when it held nothing.
pub fn close_after_transfer_in(user_balance: u64) -> (r: bool)
    ensures
        r == (user_balance == 0),
{
    user_balance == 0
}

/// Whether the user's token account is closed after a transfer out of a reserve:
/// when the balance less the amount (saturating at zero) is zero.
pub fn close_after_transfer_out(user_balance: u64, amount: u64) -> (r: bool)
    ensures
        r == (user_balance <= amount),
{
    user_balance.saturating_sub(amount) == 0
}

/// What an instruction asks its caller to carry out once its accounts are updated:
/// the amounts to transfer into and out of the reserve, and whether the temporary
/// price account's rent goes back to the price oracle.
#[derive(Debug, Clone, Copy, PartialEq, Eq, Structural)]
pub struct Effects {
    pub into_reserve: Option<u64>,
    pub out_of_reserve: Option<u64>,
    pub refund_oracle_fees: bool,
}

/// A decoded temporary price data account and the address it was read from.
pub struct PriceAccountInput {
    pub key: Pubkey,
    pub account: TempOraclePriceAccount,
}

/// The extra accounts an instruction that reads prices is handed: the temporary price
/// data account and the price oracle's account (`None` when not handed in).
pub struct PriceAccounts {
    pub temp_price_account: Option<PriceAccountInput>,
    pub oracle_account: Option<Pubkey>,
}

/// Loads the temporary price data account: it must be handed in and live at the
/// address made for the signer.
pub open spec fn spec_step_load_prices(
    program_id: Pubkey,
    signer: Pubkey,
    input: Option<PriceAccountInput>,
) -> Outcome<TempOraclePriceAccount> {
    match input {
        None => Outcome::Fail(LendingError::MissingRemainingAccount),
        Some(p) => if is_program_address(price_data_seeds(signer, p.account.bump), program_id, p.key) {
            Outcome::Done(p.account)
        } else {
            Outcome::Fail(LendingError::UnexpectedOraclePriceDataAccount)
        },
    }
}

/// Loads the temporary price data account (see `spec_step_load_prices`).
pub fn load_price_account(
    program_id: Pubkey,
    signer: Pubkey,
    input: Option<PriceAccountInput>,
) -> (r: Result<TempOraclePriceAccount, LendingError>)
    ensures
        match spec_step_load_prices(program_id, signer, input) {
            Outcome::Done(a) => r == Ok::<TempOraclePriceAccount, LendingError>(a),
            Outcome::Fail(e) => r == Err::<TempOraclePriceAccount, LendingError>(e),
            Outcome::Abort => false,
        },
{
    match input {
        None => Err(LendingError::MissingRemainingAccount),
        Some(p) => validate_and_return_temp_price_account(program_id, p.key, p.account, signer),
    }
}

/// Checks the price oracle's account before its rent refund: it must be handed in and
/// be the validator's address.
pub open spec fn spec_oracle_check(oracle_account: Option<Pubkey>, validator: Pubkey) -> Result<(), LendingError> {
    match oracle_account {
        None => Err(LendingError::MissingRemainingAccount),
        Some(k) => if k == validator { Ok(()) } else { Err(LendingError::PriceOracleKeyMisMatched) },
    }
}

/// Checks the price oracle's account before its rent refund.
pub fn check_oracle_account(oracle_account: Option<Pubkey>, validator: Pubkey) -> (r: Result<(), LendingError>)
    ensures
        r == spec_oracle_check(oracle_account, validator),
{
    match oracle_account {
        None => Err(LendingError::MissingRemainingAccount),
        Some(k) => if keys_equal(&k, &validator) { Ok(()) } else { Err(LendingError::PriceOracleKeyMisMatched) },
    }
}

} // verus!
