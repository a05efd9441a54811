use vstd::prelude::*;
use crate::errors::LendingError;
use crate::structs::{
    Pubkey, LendingProtocol, LendingStats, OraclePriceValidator, TokenReserve, SubMarket, LendingUserAccount,
    LendingUserTabAccount, LendingUserMonthlyStatementAccount, TempOraclePriceAccount,
};
use crate::steps::{
    Outcome, same_user_account, spec_ensure_user_account, spec_ensure_tab, spec_ensure_statement,
    spec_step_settle_tab, spec_oracle_check, sync_tab, ensure_lending_user_account, ensure_lending_user_tab_account,
    ensure_monthly_statement, settle_tab, check_oracle_account, Effects, ACTIVITY_REPAY,
    ACTIVITY_LIQUIDATE,
};
use crate::oracle::{price_is_fresh, spec_price_lookup, pow10, check_token_price_staleness, get_verified_token_price,
    token_conversion_number};
use crate::rates::{rates_computable, spec_update_rates, update_token_reserve_rates};
use crate::lending::usd_value;
use crate::validation::{
    is_program_address, price_data_seeds, lending_stats_seeds, sub_market_seeds, tab_account_seeds,
    monthly_statement_seeds, is_temp_price_account_address, validate_and_return_lending_stats_account,
    validate_and_return_sub_market_account, validate_and_return_lending_user_tab_account,
    validate_and_return_lending_user_monthly_state_account,
};

verus! {

/// A decoded account handed in among an instruction's extra accounts, with its address.
#[derive(Clone, Copy)]
pub struct Keyed<T> {
    pub key: Pubkey,
    pub account: T,
}

/// What a liquidation repays: the amount, its USD value, and the liquidated user's
/// total debt value afterwards (lowered only when a whole insolvent position is repaid).
pub open spec fn spec_liquidation_terms(
    total_deposited: u128,
    total_borrowed: u128,
    debt: u64,
    price: u128,
    conversion: nat,
    paying_off_insolvent_account: bool,
    repay_max: bool,
    amount_to_repay: u64,
) -> Outcome<(u64, u128, u128)> {
    let chosen: Outcome<u64> = if paying_off_insolvent_account {
        if total_borrowed < total_deposited {
            Outcome::Fail(LendingError::NotInsolvent)
        } else if repay_max {
            Outcome::Done(debt)
        } else if amount_to_repay > debt {
            Outcome::Done(debt)
        } else {
            Outcome::Done(amount_to_repay)
        }
    } else if total_deposited * 80 > u128::MAX {
        Outcome::Abort
    } else if total_borrowed < (total_deposited * 80) / 100 {
        Outcome::Fail(LendingError::NotLiquidatable)
    } else if debt * 50 > u64::MAX {
        Outcome::Abort
    } else {
        let ra: int = if repay_max { (debt * 50) / 100 } else { amount_to_repay as int };
        if ra > (debt * 50) / 100 {
            Outcome::Fail(LendingError::OverLiquidation)
        } else {
            Outcome::Done(ra as u64)
        }
    };
    match chosen {
        Outcome::Fail(e) => Outcome::Fail(e),
        Outcome::Abort => Outcome::Abort,
        Outcome::Done(ra) => if ra * price > u128::MAX || debt * 10 > u64::MAX {
            Outcome::Abort
        } else if ra < (debt * 10) / 100 {
            Outcome::Fail(LendingError::GriefingRepayment)
        } else {
            let rv = usd_value(ra as int, price as int, conversion as int);
            let nb: int = if paying_off_insolvent_account && repay_max {
                if total_borrowed >= rv { total_borrowed - rv } else { 0 }
            } else {
                total_borrowed as int
            };
            Outcome::Done((ra, rv as u128, nb as u128))
        },
    }
}

/// Computes what a liquidation repays (see `spec_liquidation_terms`).
pub fn liquidation_terms(
    total_deposited: u128,
    total_borrowed: u128,
    debt: u64,
    price: u128,
    conversion: u128,
    paying_off_insolvent_account: bool,
    repay_max: bool,
    amount_to_repay: u64,
) -> (r: Result<(u64, u128, u128), LendingError>)
    requires
        conversion > 0,
        !(spec_liquidation_terms(total_deposited, total_borrowed, debt, price, conversion as nat,
            paying_off_insolvent_account, repay_max, amount_to_repay) is Abort),
    ensures
        match spec_liquidation_terms(total_deposited, total_borrowed, debt, price, conversion as nat,
            paying_off_insolvent_account, repay_max, amount_to_repay) {
            Outcome::Done(t) => r == Ok::<(u64, u128, u128), LendingError>(t),
            Outcome::Fail(e) => r == Err::<(u64, u128, u128), LendingError>(e),
            Outcome::Abort => false,
        },
{
    let repayment_amount: u64;
    let mut new_total_borrowed = total_borrowed;
    let mut repayment_value: u128 = 0;
    if paying_off_insolvent_account {
        if total_borrowed < total_deposited {
            return Err(LendingError::NotInsolvent);
        }
        if repay_max {
            repayment_amount = debt;
            repayment_value = (repayment_amount as u128 * price) / conversion;
            new_total_borrowed = total_borrowed.saturating_sub(repayment_value);
        } else if amount_to_repay > debt {
            repayment_amount = debt;
        } else {
            repayment_amount = amount_to_repay;
        }
    } else {
        let eighty_percent = (total_deposited * 80) / 100;
        if total_borrowed < eighty_percent {
            return Err(LendingError::NotLiquidatable);
        }
        let fifty_percent = (debt * 50) / 100;
        repayment_amount = if repay_max { fifty_percent } else { amount_to_repay };
        if repayment_amount > fifty_percent {
            return Err(LendingError::OverLiquidation);
        }
    }
    if repayment_value == 0 {
        repayment_value = (repayment_amount as u128 * price) / conversion;
    }
    let ten_percent = (debt * 10) / 100;
    if repayment_amount < ten_percent {
        return Err(LendingError::GriefingRepayment);
    }
    Ok((repayment_amount, repayment_value, new_total_borrowed))
}

/// The collateral seized for a repayment worth `repayment_value`: its worth in the
/// collateral token plus a 7% bonus for the liquidator, and a 1% fee; when the
/// liquidated tab holds less than that, 1% of its deposit is the fee and the rest the
/// liquidator's.
pub open spec fn spec_seized(repayment_value: u128, conversion: nat, price: u128, deposited: u64) -> Outcome<(u64, u64)> {
    if repayment_value * conversion > u128::MAX || price == 0 {
        Outcome::Abort
    } else {
        let seized = (((repayment_value * conversion) / price as int) as u64) as int;
        if seized * 107 > u64::MAX || (seized * 107) / 100 + seized / 100 > u64::MAX {
            Outcome::Abort
        } else if deposited < (seized * 107) / 100 + seized / 100 {
            Outcome::Done(((deposited - deposited / 100) as u64, (deposited / 100) as u64))
        } else {
            Outcome::Done((((seized * 107) / 100) as u64, (seized / 100) as u64))
        }
    }
}

/// Computes the seized collateral (see `spec_seized`).
pub fn seized_collateral(repayment_value: u128, conversion: u128, price: u128, deposited: u64) -> (r: (u64, u64))
    requires
        !(spec_seized(repayment_value, conversion as nat, price, deposited) is Abort),
    ensures
        spec_seized(repayment_value, conversion as nat, price, deposited) == Outcome::<(u64, u64)>::Done(r),
{
    let amount_to_be_liquidated = ((repayment_value * conversion) / price) as u64;
    let mut bonus = (amount_to_be_liquidated * 107) / 100;
    let mut fee = amount_to_be_liquidated / 100;
    if deposited < bonus + fee {
        fee = deposited / 100;
        bonus = deposited - fee;
    }
    (bonus, fee)
}

/// Books a repayment of `ra` on the reserve, the sub market, the liquidated user's
/// tab and statement (debt down) and the liquidator's tab and statement (repaid up).
pub open spec fn spec_book_repayment(
    tr: TokenReserve,
    sm: SubMarket,
    liquidati_tab: LendingUserTabAccount,
    liquidator_tab: LendingUserTabAccount,
    liquidati_st: LendingUserMonthlyStatementAccount,
    liquidator_st: LendingUserMonthlyStatementAccount,
    ra: u64,
) -> Outcome<(TokenReserve, SubMarket, LendingUserTabAccount, LendingUserTabAccount,
    LendingUserMonthlyStatementAccount, LendingUserMonthlyStatementAccount)> {
    if sm.borrowed_amount < ra || sm.repaid_debt_amount + ra > u128::MAX
        || tr.borrowed_amount < ra || tr.repaid_debt_amount + ra > u128::MAX
        || liquidati_tab.borrowed_amount < ra || liquidator_tab.repaid_debt_amount + ra > u64::MAX
        || liquidati_st.monthly_repaid_debt_amount + ra > u64::MAX
        || liquidator_st.monthly_repaid_debt_amount + ra > u64::MAX {
        Outcome::Abort
    } else {
        let ti = LendingUserTabAccount { borrowed_amount: (liquidati_tab.borrowed_amount - ra) as u64, ..liquidati_tab };
        Outcome::Done((
            TokenReserve {
                borrowed_amount: (tr.borrowed_amount - ra) as u128,
                repaid_debt_amount: (tr.repaid_debt_amount + ra) as u128,
                ..tr
            },
            SubMarket {
                borrowed_amount: (sm.borrowed_amount - ra) as u128,
                repaid_debt_amount: (sm.repaid_debt_amount + ra) as u128,
                ..sm
            },
            ti,
            LendingUserTabAccount { repaid_debt_amount: (liquidator_tab.repaid_debt_amount + ra) as u64, ..liquidator_tab },
            LendingUserMonthlyStatementAccount {
                monthly_repaid_debt_amount: (liquidati_st.monthly_repaid_debt_amount + ra) as u64,
                snap_shot_debt_amount: ti.borrowed_amount,
                ..liquidati_st
            },
            LendingUserMonthlyStatementAccount {
                monthly_repaid_debt_amount: (liquidator_st.monthly_repaid_debt_amount + ra) as u64,
                ..liquidator_st
            },
        ))
    }
}

/// Books a repayment (see `spec_book_repayment`).
pub fn book_repayment(
    tr: &mut TokenReserve,
    sm: &mut SubMarket,
    liquidati_tab: &mut LendingUserTabAccount,
    liquidator_tab: &mut LendingUserTabAccount,
    liquidati_st: &mut LendingUserMonthlyStatementAccount,
    liquidator_st: &mut LendingUserMonthlyStatementAccount,
    ra: u64,
)
    requires
        !(spec_book_repayment(*old(tr), *old(sm), *old(liquidati_tab), *old(liquidator_tab), *old(liquidati_st),
            *old(liquidator_st), ra) is Abort),
    ensures
        spec_book_repayment(*old(tr), *old(sm), *old(liquidati_tab), *old(liquidator_tab), *old(liquidati_st),
            *old(liquidator_st), ra) == Outcome::Done((*final(tr), *final(sm), *final(liquidati_tab),
            *final(liquidator_tab), *final(liquidati_st), *final(liquidator_st))),
{
    tr.borrowed_amount = tr.borrowed_amount - ra as u128;
    tr.repaid_debt_amount = tr.repaid_debt_amount + ra as u128;
    sm.borrowed_amount = sm.borrowed_amount - ra as u128;
    sm.repaid_debt_amount = sm.repaid_debt_amount + ra as u128;
    liquidati_tab.borrowed_amount = liquidati_tab.borrowed_amount - ra;
    liquidator_tab.repaid_debt_amount = liquidator_tab.repaid_debt_amount + ra;
    liquidati_st.monthly_repaid_debt_amount = liquidati_st.monthly_repaid_debt_amount + ra;
    liquidator_st.monthly_repaid_debt_amount = liquidator_st.monthly_repaid_debt_amount + ra;
    liquidati_st.snap_shot_debt_amount = liquidati_tab.borrowed_amount;
}

/// Books the seizure of `bonus` plus `fee` from the liquidated user's tab: the fee is
/// kept as uncollected liquidation fees; the bonus leaves the reserve to the
/// liquidator's wallet or is credited to the liquidator's tab.
pub open spec fn spec_book_seizure(
    tr: TokenReserve,
    sm: SubMarket,
    liquidati_tab: LendingUserTabAccount,
    liquidator_tab: LendingUserTabAccount,
    liquidati_st: LendingUserMonthlyStatementAccount,
    liquidator_st: LendingUserMonthlyStatementAccount,
    bonus: u64,
    fee: u64,
    send_reward_to_wallet: bool,
) -> Outcome<(TokenReserve, SubMarket, LendingUserTabAccount, LendingUserTabAccount,
    LendingUserMonthlyStatementAccount, LendingUserMonthlyStatementAccount)> {
    if sm.liquidated_amount + bonus + fee > u128::MAX || sm.deposited_amount < fee
        || sm.liquidation_fees_generated_amount + fee > u128::MAX
        || tr.liquidated_amount + bonus + fee > u128::MAX || tr.deposited_amount < fee
        || tr.uncollected_liquidation_fees_amount + fee > u128::MAX
        || liquidati_tab.deposited_amount < bonus + fee
        || liquidati_tab.liquidated_amount + bonus + fee > u64::MAX
        || liquidator_tab.liquidator_amount + bonus > u64::MAX
        || liquidator_tab.fees_generated_amount + fee > u64::MAX
        || liquidati_st.monthly_liquidated_amount + bonus + fee > u64::MAX
        || liquidator_st.monthly_liquidator_amount + bonus > u64::MAX
        || liquidator_st.fees_generated_amount + fee > u64::MAX
        || (send_reward_to_wallet && (sm.deposited_amount - fee < bonus || tr.deposited_amount - fee < bonus))
        || (!send_reward_to_wallet && liquidator_tab.deposited_amount + bonus > u64::MAX) {
        Outcome::Abort
    } else {
        let paid_out: int = if send_reward_to_wallet { bonus as int } else { 0 };
        let ti = LendingUserTabAccount {
            deposited_amount: (liquidati_tab.deposited_amount - bonus - fee) as u64,
            liquidated_amount: (liquidati_tab.liquidated_amount + bonus + fee) as u64,
            ..liquidati_tab
        };
        let to = LendingUserTabAccount {
            liquidator_amount: (liquidator_tab.liquidator_amount + bonus) as u64,
            fees_generated_amount: (liquidator_tab.fees_generated_amount + fee) as u64,
            deposited_amount: if send_reward_to_wallet {
                liquidator_tab.deposited_amount
            } else {
                (liquidator_tab.deposited_amount + bonus) as u64
            },
            ..liquidator_tab
        };
        Outcome::Done((
            TokenReserve {
                liquidated_amount: (tr.liquidated_amount + bonus + fee) as u128,
                deposited_amount: (tr.deposited_amount - fee - paid_out) as u128,
                uncollected_liquidation_fees_amount: (tr.uncollected_liquidation_fees_amount + fee) as u128,
                ..tr
            },
            SubMarket {
                liquidated_amount: (sm.liquidated_amount + bonus + fee) as u128,
                deposited_amount: (sm.deposited_amount - fee - paid_out) as u128,
                liquidation_fees_generated_amount: (sm.liquidation_fees_generated_amount + fee) as u128,
                ..sm
            },
            ti,
            to,
            LendingUserMonthlyStatementAccount {
                monthly_liquidated_amount: (liquidati_st.monthly_liquidated_amount + bonus + fee) as u64,
                snap_shot_balance_amount: ti.deposited_amount,
                ..liquidati_st
            },
            LendingUserMonthlyStatementAccount {
                monthly_liquidator_amount: (liquidator_st.monthly_liquidator_amount + bonus) as u64,
                fees_generated_amount: (liquidator_st.fees_generated_amount + fee) as u64,
                snap_shot_balance_amount: if send_reward_to_wallet {
                    liquidator_st.snap_shot_balance_amount
                } else {
                    to.deposited_amount
                },
                ..liquidator_st
            },
        ))
    }
}

/// Books a seizure (see `spec_book_seizure`).
pub fn book_seizure(
    tr: &mut TokenReserve,
    sm: &mut SubMarket,
    liquidati_tab: &mut LendingUserTabAccount,
    liquidator_tab: &mut LendingUserTabAccount,
    liquidati_st: &mut LendingUserMonthlyStatementAccount,
    liquidator_st: &mut LendingUserMonthlyStatementAccount,
    bonus: u64,
    fee: u64,
    send_reward_to_wallet: bool,
)
    requires
        !(spec_book_seizure(*old(tr), *old(sm), *old(liquidati_tab), *old(liquidator_tab), *old(liquidati_st),
            *old(liquidator_st), bonus, fee, send_reward_to_wallet) is Abort),
    ensures
        spec_book_seizure(*old(tr), *old(sm), *old(liquidati_tab), *old(liquidator_tab), *old(liquidati_st),
            *old(liquidator_st), bonus, fee, send_reward_to_wallet) == Outcome::Done((*final(tr), *final(sm),
            *final(liquidati_tab), *final(liquidator_tab), *final(liquidati_st), *final(liquidator_st))),
{
    sm.liquidated_amount = sm.liquidated_amount + bonus as u128;
    sm.liquidated_amount = sm.liquidated_amount + fee as u128;
    sm.deposited_amount = sm.deposited_amount - fee as u128;
    sm.liquidation_fees_generated_amount = sm.liquidation_fees_generated_amount + fee as u128;
    tr.liquidated_amount = tr.liquidated_amount + bonus as u128;
    tr.liquidated_amount = tr.liquidated_amount + fee as u128;
    tr.deposited_amount = tr.deposited_amount - fee as u128;
    tr.uncollected_liquidation_fees_amount = tr.uncollected_liquidation_fees_amount + fee as u128;
    liquidati_tab.deposited_amount = liquidati_tab.deposited_amount - bonus;
    liquidati_tab.deposited_amount = liquidati_tab.deposited_amount - fee;
    liquidati_tab.liquidated_amount = liquidati_tab.liquidated_amount + bonus;
    liquidati_tab.liquidated_amount = liquidati_tab.liquidated_amount + fee;
    liquidator_tab.liquidator_amount = liquidator_tab.liquidator_amount + bonus;
    liquidator_tab.fees_generated_amount = liquidator_tab.fees_generated_amount + fee;
    liquidati_st.monthly_liquidated_amount = liquidati_st.monthly_liquidated_amount + bonus;
    liquidati_st.monthly_liquidated_amount = liquidati_st.monthly_liquidated_amount + fee;
    liquidati_st.snap_shot_balance_amount = liquidati_tab.deposited_amount;
    liquidator_st.monthly_liquidator_amount = liquidator_st.monthly_liquidator_amount + bonus;
    liquidator_st.fees_generated_amount = liquidator_st.fees_generated_amount + fee;
    if send_reward_to_wallet {
        sm.deposited_amount = sm.deposited_amount - bonus as u128;
        tr.deposited_amount = tr.deposited_amount - bonus as u128;
    } else {
        liquidator_tab.deposited_amount = liquidator_tab.deposited_amount + bonus;
        liquidator_st.snap_shot_balance_amount = liquidator_tab.deposited_amount;
    }
}

/// Recomputes the reserve's rates and copies its indexes to the sub market and the
/// two tabs.
pub open spec fn spec_rates_and_sync2(
    tr: TokenReserve,
    sm: SubMarket,
    tab_a: LendingUserTabAccount,
    tab_b: LendingUserTabAccount,
) -> (TokenReserve, SubMarket, LendingUserTabAccount, LendingUserTabAccount) {
    let tr1 = spec_update_rates(tr);
    (
        tr1,
        SubMarket {
            supply_interest_change_index: tr1.supply_interest_change_index,
            borrow_interest_change_index: tr1.borrow_interest_change_index,
            ..sm
        },
        sync_tab(tab_a, tr1),
        sync_tab(tab_b, tr1),
    )
}

/// Recomputes the reserve's rates and copies its indexes to the sub market and the two tabs.
pub fn rates_and_sync2(
    tr: &mut TokenReserve,
    sm: &mut SubMarket,
    tab_a: &mut LendingUserTabAccount,
    tab_b: &mut LendingUserTabAccount,
)
    requires
        rates_computable(*old(tr)),
    ensures
        (*final(tr), *final(sm), *final(tab_a), *final(tab_b)) == spec_rates_and_sync2(*old(tr), *old(sm), *old(tab_a),
            *old(tab_b)),
{
    update_token_reserve_rates(tr);
    sm.supply_interest_change_index = tr.supply_interest_change_index;
    sm.borrow_interest_change_index = tr.borrow_interest_change_index;
    tab_a.supply_interest_change_index = tr.supply_interest_change_index;
    tab_a.borrow_interest_change_index = tr.borrow_interest_change_index;
    tab_b.supply_interest_change_index = tr.supply_interest_change_index;
    tab_b.borrow_interest_change_index = tr.borrow_interest_change_index;
}

/// A statement with a lending activity recorded.
pub open spec fn stamp_statement(st: LendingUserMonthlyStatementAccount, amount: u64, activity: u8, time_stamp: u64)
    -> LendingUserMonthlyStatementAccount {
    LendingUserMonthlyStatementAccount {
        last_lending_activity_amount: amount,
        last_lending_activity_type: activity,
        last_lending_activity_time_stamp: time_stamp,
        ..st
    }
}

/// A sub market with a lending activity recorded.
pub open spec fn stamp_sub_market(sm: SubMarket, amount: u64, activity: u8, time_stamp: u64) -> SubMarket {
    SubMarket {
        last_lending_activity_amount: amount,
        last_lending_activity_type: activity,
        last_lending_activity_time_stamp: time_stamp,
        ..sm
    }
}

/// A token reserve with a lending activity recorded.
pub open spec fn stamp_reserve(tr: TokenReserve, amount: u64, activity: u8) -> TokenReserve {
    TokenReserve { last_lending_activity_amount: amount, last_lending_activity_type: activity, ..tr }
}

/// An extra account that must be handed in and live at its program derived address.
pub open spec fn spec_check_keyed<T>(x: Option<Keyed<T>>, valid: bool, unexpected: LendingError) -> Outcome<Keyed<T>> {
    match x {
        None => Outcome::Fail(LendingError::MissingRemainingAccount),
        Some(k) => if valid { Outcome::Done(k) } else { Outcome::Fail(unexpected) },
    }
}

/// Checks the handed-in temporary price data account of `user`.
pub fn check_temp_price_account(program_id: Pubkey, x: &Option<Keyed<TempOraclePriceAccount>>, user: Pubkey)
    -> (r: Result<(), LendingError>)
    ensures
        match spec_check_temp(program_id, *x, user) {
            Outcome::Done(k) => r is Ok,
            Outcome::Fail(e) => r matches Err(f) && f == e,
            Outcome::Abort => false,
        },
{
    match x {
        None => Err(LendingError::MissingRemainingAccount),
        Some(k) => {
            if is_temp_price_account_address(program_id, k.key, k.account.bump, user) {
                Ok(())
            } else {
                Err(LendingError::UnexpectedOraclePriceDataAccount)
            }
        },
    }
}

/// Checks the handed-in lending statistics account.
pub fn check_lending_stats(program_id: Pubkey, x: Option<Keyed<LendingStats>>)
    -> (r: Result<Keyed<LendingStats>, LendingError>)
    ensures
        match spec_check_keyed(x, x matches Some(k) && is_program_address(lending_stats_seeds(k.account.bump),
            program_id, k.key), LendingError::UnexpectedLendingStatsAccount) {
            Outcome::Done(k) => r matches Ok(v) && v == k,
            Outcome::Fail(e) => r matches Err(f) && f == e,
            Outcome::Abort => false,
        },
{
    match x {
        None => Err(LendingError::MissingRemainingAccount),
        Some(k) => {
            let key = k.key;
            let account = validate_and_return_lending_stats_account(program_id, key, k.account)?;
            Ok(Keyed { key: key, account: account })
        },
    }
}

/// Checks a handed-in sub market account.
pub fn check_sub_market(
    program_id: Pubkey,
    x: Option<Keyed<SubMarket>>,
    token_id: u8,
    owner: Pubkey,
    sub_market_index: u16,
) -> (r: Result<Keyed<SubMarket>, LendingError>)
    ensures
        match spec_check_keyed(x, x matches Some(k) && is_program_address(sub_market_seeds(token_id, owner,
            sub_market_index, k.account.bump), program_id, k.key), LendingError::UnexpectedSubMarketAccount) {
            Outcome::Done(k) => r matches Ok(v) && v == k,
            Outcome::Fail(e) => r matches Err(f) && f == e,
            Outcome::Abort => false,
        },
{
    match x {
        None => Err(LendingError::MissingRemainingAccount),
        Some(k) => {
            let key = k.key;
            let account = validate_and_return_sub_market_account(program_id, key, k.account, token_id, owner,
                sub_market_index)?;
            Ok(Keyed { key: key, account: account })
        },
    }
}

/// Checks a handed-in tab account.
pub fn check_tab_account(
    program_id: Pubkey,
    x: Option<Keyed<LendingUserTabAccount>>,
    token_id: u8,
    sub_market_owner: Pubkey,
    sub_market_index: u16,
    owner: Pubkey,
    user_account_index: u8,
) -> (r: Result<Keyed<LendingUserTabAccount>, LendingError>)
    ensures
        match spec_check_keyed(x, x matches Some(k) && is_program_address(tab_account_seeds(token_id,
            sub_market_owner, sub_market_index, owner, user_account_index, k.account.bump), program_id, k.key),
            LendingError::UnexpectedTabAccount) {
            Outcome::Done(k) => r matches Ok(v) && v == k,
            Outcome::Fail(e) => r matches Err(f) && f == e,
            Outcome::Abort => false,
        },
{
    match x {
        None => Err(LendingError::MissingRemainingAccount),
        Some(k) => {
            let key = k.key;
            let account = validate_and_return_lending_user_tab_account(program_id, key, k.account, token_id,
                sub_market_owner, sub_market_index, owner, user_account_index)?;
            Ok(Keyed { key: key, account: account })
        },
    }
}

/// Checks a handed-in monthly statement account for the protocol's current month.
pub fn check_statement_account(
    program_id: Pubkey,
    x: Option<Keyed<LendingUserMonthlyStatementAccount>>,
    lending_protocol: &LendingProtocol,
    token_id: u8,
    sub_market_owner: Pubkey,
    sub_market_index: u16,
    owner: Pubkey,
    user_account_index: u8,
) -> (r: Result<Keyed<LendingUserMonthlyStatementAccount>, LendingError>)
    ensures
        match spec_check_keyed(x, x matches Some(k) && is_program_address(monthly_statement_seeds(
            lending_protocol.current_statement_month, lending_protocol.current_statement_year, token_id,
            sub_market_owner, sub_market_index, owner, user_account_index, k.account.bump), program_id, k.key),
            LendingError::UnexpectedMonthlyStatementAccount) {
            Outcome::Done(k) => r matches Ok(v) && v == k,
            Outcome::Fail(e) => r matches Err(f) && f == e,
            Outcome::Abort => false,
        },
{
    match x {
        None => Err(LendingError::MissingRemainingAccount),
        Some(k) => {
            let key = k.key;
            let account = validate_and_return_lending_user_monthly_state_account(program_id, key, k.account,
                lending_protocol.current_statement_month, lending_protocol.current_statement_year, token_id,
                sub_market_owner, sub_market_index, owner, user_account_index)?;
            Ok(Keyed { key: key, account: account })
        },
    }
}

/// The temporary price data account of `user`, checked.
pub open spec fn spec_check_temp(program_id: Pubkey, x: Option<Keyed<TempOraclePriceAccount>>, user: Pubkey)
    -> Outcome<Keyed<TempOraclePriceAccount>> {
    spec_check_keyed(x, x matches Some(k) && is_program_address(price_data_seeds(user, k.account.bump), program_id, k.key),
        LendingError::UnexpectedOraclePriceDataAccount)
}

/// The lending statistics account, checked.
pub open spec fn spec_check_stats(program_id: Pubkey, x: Option<Keyed<LendingStats>>) -> Outcome<Keyed<LendingStats>> {
    spec_check_keyed(x, x matches Some(k) && is_program_address(lending_stats_seeds(k.account.bump), program_id, k.key),
        LendingError::UnexpectedLendingStatsAccount)
}

/// A sub market account, checked.
pub open spec fn spec_check_sub_market(program_id: Pubkey, x: Option<Keyed<SubMarket>>, token_id: u8, owner: Pubkey,
    sub_market_index: u16) -> Outcome<Keyed<SubMarket>> {
    spec_check_keyed(x, x matches Some(k) && is_program_address(sub_market_seeds(token_id, owner, sub_market_index,
        k.account.bump), program_id, k.key), LendingError::UnexpectedSubMarketAccount)
}

/// A tab account, checked.
pub open spec fn spec_check_tab(program_id: Pubkey, x: Option<Keyed<LendingUserTabAccount>>, token_id: u8,
    sub_market_owner: Pubkey, sub_market_index: u16, owner: Pubkey, user_account_index: u8)
    -> Outcome<Keyed<LendingUserTabAccount>> {
    spec_check_keyed(x, x matches Some(k) && is_program_address(tab_account_seeds(token_id, sub_market_owner,
        sub_market_index, owner, user_account_index, k.account.bump), program_id, k.key),
        LendingError::UnexpectedTabAccount)
}

/// A monthly statement account for the protocol's current month, checked.
pub open spec fn spec_check_statement(program_id: Pubkey, x: Option<Keyed<LendingUserMonthlyStatementAccount>>,
    lp: LendingProtocol, token_id: u8, sub_market_owner: Pubkey, sub_market_index: u16, owner: Pubkey,
    user_account_index: u8) -> Outcome<Keyed<LendingUserMonthlyStatementAccount>> {
    spec_check_keyed(x, x matches Some(k) && is_program_address(monthly_statement_seeds(lp.current_statement_month,
        lp.current_statement_year, token_id, sub_market_owner, sub_market_index, owner, user_account_index,
        k.account.bump), program_id, k.key), LendingError::UnexpectedMonthlyStatementAccount)
}

/// The accounts and readings a liquidation within one sub market works on; the
/// liquidated user's tab and statement, the sub market, the statistics and the price
/// data come among the extra accounts.
pub struct LiquidateAccountSameSubMarket {
    pub program_id: Pubkey,
    pub signer: Pubkey,
    pub sub_market_owner: Pubkey,
    pub liquidati_account_owner: Pubkey,
    pub lending_protocol: LendingProtocol,
    pub price_validator: OraclePriceValidator,
    pub token_reserve: TokenReserve,
    pub liquidati_lending_account: LendingUserAccount,
    pub liquidator_lending_account: LendingUserAccount,
    pub liquidator_tab_account: LendingUserTabAccount,
    pub liquidator_monthly_statement_account: LendingUserMonthlyStatementAccount,
    pub liquidator_lending_account_bump: u8,
    pub liquidator_tab_account_bump: u8,
    pub liquidator_monthly_statement_account_bump: u8,
    pub clock_slot: u64,
    pub temp_price_account: Option<Keyed<TempOraclePriceAccount>>,
    pub lending_stats: Option<Keyed<LendingStats>>,
    pub sub_market: Option<Keyed<SubMarket>>,
    pub liquidati_tab_account: Option<Keyed<LendingUserTabAccount>>,
    pub liquidati_monthly_statement_account: Option<Keyed<LendingUserMonthlyStatementAccount>>,
    pub oracle_account: Option<Pubkey>,
}

/// The arguments of a liquidation.
#[derive(Debug, Clone, Copy)]
pub struct LiquidationArgs {
    pub liquidati_account_index: u8,
    pub liquidator_account_index: u8,
    pub amount_to_repay: u64,
    pub repay_max: bool,
    pub paying_off_insolvent_account: bool,
    pub send_reward_to_wallet: bool,
}

/// The liquidator's side of a liquidation within one sub market, once the liquidated
/// user's accounts, the price and the terms are known.
pub open spec fn spec_same_sub_market_settle(
    c: LiquidateAccountSameSubMarket,
    sub_market_index: u16,
    a: LiquidationArgs,
    account_name: Option<String>,
    look_up_table_address: Option<Pubkey>,
    stats: Keyed<LendingStats>,
    sm: Keyed<SubMarket>,
    ti_tab: Keyed<LendingUserTabAccount>,
    ti_st: Keyed<LendingUserMonthlyStatementAccount>,
    price: u128,
    conversion: nat,
    terms: (u64, u128, u128),
) -> Outcome<(LiquidateAccountSameSubMarket, Effects)> {
    let (ra, rv, nb) = terms;
    let tr = c.token_reserve;
    match spec_ensure_user_account(c.liquidator_lending_account, account_name, "Generic Liquidator"@,
        look_up_table_address, c.liquidator_lending_account_bump, c.signer, a.liquidator_account_index) {
        Outcome::Fail(e) => Outcome::Fail(e),
        Outcome::Abort => Outcome::Abort,
        Outcome::Done(ua1) => match spec_ensure_tab(ua1, c.liquidator_tab_account, c.lending_protocol,
            c.liquidator_tab_account_bump, tr.token_id, c.sub_market_owner, sub_market_index, c.signer,
            a.liquidator_account_index) {
            Outcome::Fail(e) => Outcome::Fail(e),
            Outcome::Abort => Outcome::Abort,
            Outcome::Done(p) => {
                let to_st1 = spec_ensure_statement(c.liquidator_monthly_statement_account, p.1, c.lending_protocol,
                    c.liquidator_monthly_statement_account_bump, tr.token_id, c.sub_market_owner, sub_market_index,
                    c.signer, a.liquidator_account_index);
                match spec_step_settle_tab(tr, sm.account, p.1, to_st1) {
                    Outcome::Fail(e) => Outcome::Fail(e),
                    Outcome::Abort => Outcome::Abort,
                    Outcome::Done(s) => match spec_seized(rv, conversion, price, ti_tab.account.deposited_amount) {
                        Outcome::Fail(e) => Outcome::Fail(e),
                        Outcome::Abort => Outcome::Abort,
                        Outcome::Done(z) => match spec_book_repayment(s.0, s.1, ti_tab.account, s.2, ti_st.account,
                            s.3, ra) {
                            Outcome::Fail(e) => Outcome::Fail(e),
                            Outcome::Abort => Outcome::Abort,
                            Outcome::Done(b) => match spec_book_seizure(b.0, b.1, b.2, b.3, b.4, b.5, z.0, z.1,
                                a.send_reward_to_wallet) {
                                Outcome::Fail(e) => Outcome::Fail(e),
                                Outcome::Abort => Outcome::Abort,
                                Outcome::Done(d) => match spec_oracle_check(c.oracle_account, c.price_validator.address) {
                                    Err(e) => Outcome::Fail(e),
                                    Ok(_) => if stats.account.liquidations + 1 > u128::MAX || !rates_computable(d.0) {
                                        Outcome::Abort
                                    } else {
                                        let y = spec_rates_and_sync2(d.0, d.1, d.2, d.3);
                                        let liq = (z.0 + z.1) as u64;
                                        let ts = y.0.last_lending_activity_time_stamp;
                                        Outcome::Done((
                                            LiquidateAccountSameSubMarket {
                                                token_reserve: stamp_reserve(y.0, liq, ACTIVITY_LIQUIDATE),
                                                liquidati_lending_account: LendingUserAccount {
                                                    total_borrowed_usd_value: nb,
                                                    ..c.liquidati_lending_account
                                                },
                                                liquidator_lending_account: p.0,
                                                liquidator_tab_account: y.3,
                                                liquidator_monthly_statement_account:
                                                    stamp_statement(d.5, liq, ACTIVITY_LIQUIDATE, ts),
                                                lending_stats: Some(Keyed {
                                                    key: stats.key,
                                                    account: LendingStats {
                                                        liquidations: (stats.account.liquidations + 1) as u128,
                                                        ..stats.account
                                                    },
                                                }),
                                                sub_market: Some(Keyed {
                                                    key: sm.key,
                                                    account: stamp_sub_market(y.1, liq, ACTIVITY_LIQUIDATE, ts),
                                                }),
                                                liquidati_tab_account: Some(Keyed { key: ti_tab.key, account: y.2 }),
                                                liquidati_monthly_statement_account: Some(Keyed {
                                                    key: ti_st.key,
                                                    account: stamp_statement(d.4, liq, ACTIVITY_LIQUIDATE, ts),
                                                }),
                                                ..c
                                            },
                                            Effects {
                                                into_reserve: Some(ra),
                                                out_of_reserve: if a.send_reward_to_wallet { Some(z.0) } else { None },
                                                refund_oracle_fees: true,
                                            },
                                        ))
                                    },
                                },
                            },
                        },
                    },
                }
            },
        },
    }
}

/// A liquidation within one sub market: the liquidated user's health must be from
/// this slot; the extra accounts are checked; the terms are set by the price; then
/// the liquidator repays and seizes (see `spec_same_sub_market_settle`).
pub open spec fn spec_liquidate_account_same_sub_market(
    c: LiquidateAccountSameSubMarket,
    sub_market_index: u16,
    a: LiquidationArgs,
    account_name: Option<String>,
    look_up_table_address: Option<Pubkey>,
) -> Outcome<(LiquidateAccountSameSubMarket, Effects)> {
    let tr = c.token_reserve;
    if c.liquidati_lending_account.last_health_update_clock_slot != c.clock_slot {
        Outcome::Fail(LendingError::StaleTokenReserveOrLendingUser)
    } else {
        match spec_check_temp(c.program_id, c.temp_price_account, c.signer) {
            Outcome::Fail(e) => Outcome::Fail(e),
            Outcome::Abort => Outcome::Abort,
            Outcome::Done(temp) => match spec_check_stats(c.program_id, c.lending_stats) {
                Outcome::Fail(e) => Outcome::Fail(e),
                Outcome::Abort => Outcome::Abort,
                Outcome::Done(stats) => match spec_check_sub_market(c.program_id, c.sub_market, tr.token_id,
                    c.sub_market_owner, sub_market_index) {
                    Outcome::Fail(e) => Outcome::Fail(e),
                    Outcome::Abort => Outcome::Abort,
                    Outcome::Done(sm) => match spec_check_tab(c.program_id, c.liquidati_tab_account, tr.token_id,
                        c.sub_market_owner, sub_market_index, c.liquidati_account_owner, a.liquidati_account_index) {
                        Outcome::Fail(e) => Outcome::Fail(e),
                        Outcome::Abort => Outcome::Abort,
                        Outcome::Done(ti_tab) => match spec_check_statement(c.program_id,
                            c.liquidati_monthly_statement_account, c.lending_protocol, tr.token_id, c.sub_market_owner,
                            sub_market_index, c.liquidati_account_owner, a.liquidati_account_index) {
                            Outcome::Fail(e) => Outcome::Fail(e),
                            Outcome::Abort => Outcome::Abort,
                            Outcome::Done(ti_st) => spec_same_sub_market_priced(c, sub_market_index, a, account_name,
                                look_up_table_address, temp.account, stats, sm, ti_tab, ti_st),
                        },
                    },
                },
            },
        }
    }
}

/// A liquidation within one sub market once its extra accounts are checked: the price
/// must be fresh and known, then the terms are set.
pub open spec fn spec_same_sub_market_priced(
    c: LiquidateAccountSameSubMarket,
    sub_market_index: u16,
    a: LiquidationArgs,
    account_name: Option<String>,
    look_up_table_address: Option<Pubkey>,
    temp: TempOraclePriceAccount,
    stats: Keyed<LendingStats>,
    sm: Keyed<SubMarket>,
    ti_tab: Keyed<LendingUserTabAccount>,
    ti_st: Keyed<LendingUserMonthlyStatementAccount>,
) -> Outcome<(LiquidateAccountSameSubMarket, Effects)> {
    match spec_read_price(temp, c.clock_slot, c.token_reserve.token_id) {
        Err(e) => Outcome::Fail(e),
        Ok(price) => spec_same_sub_market_terms(c, sub_market_index, a, account_name, look_up_table_address, stats, sm,
            ti_tab, ti_st, price),
    }
}

/// The price of `token_id` in a temporary price data account: it must have been
/// written within the last 75 slots and hold an entry for the token.
pub open spec fn spec_read_price(temp: TempOraclePriceAccount, clock_slot: u64, token_id: u8) -> Result<u128, LendingError> {
    if !price_is_fresh(temp.slot, clock_slot) {
        Err(LendingError::OracleDataStale)
    } else {
        match spec_price_lookup(temp.data@, token_id) {
            None => Err(LendingError::OraclePriceNotFound),
            Some(price) => Ok(price),
        }
    }
}

/// Reads the price of `token_id` from the handed-in temporary price data account (see
/// `spec_read_price`).
pub fn read_price(x: &Option<Keyed<TempOraclePriceAccount>>, clock_slot: u64, token_id: u8)
    -> (r: Result<u128, LendingError>)
    ensures
        match x {
            None => r == Err::<u128, LendingError>(LendingError::MissingRemainingAccount),
            Some(k) => r == spec_read_price(k.account, clock_slot, token_id),
        },
{
    match x {
        None => Err(LendingError::MissingRemainingAccount),
        Some(k) => {
            check_token_price_staleness(k.account.slot, clock_slot)?;
            get_verified_token_price(k.account.data.as_slice(), token_id)
        },
    }
}

/// A liquidation within one sub market once the price is read: the terms are set by
/// the price, then the liquidator repays and seizes.
pub open spec fn spec_same_sub_market_terms(
    c: LiquidateAccountSameSubMarket,
    sub_market_index: u16,
    a: LiquidationArgs,
    account_name: Option<String>,
    look_up_table_address: Option<Pubkey>,
    stats: Keyed<LendingStats>,
    sm: Keyed<SubMarket>,
    ti_tab: Keyed<LendingUserTabAccount>,
    ti_st: Keyed<LendingUserMonthlyStatementAccount>,
    price: u128,
) -> Outcome<(LiquidateAccountSameSubMarket, Effects)> {
    let tr = c.token_reserve;
    if tr.token_decimal_amount > 38 {
        Outcome::Abort
    } else {
        let conversion = pow10(tr.token_decimal_amount as nat);
        let ua = c.liquidati_lending_account;
        match spec_liquidation_terms(ua.total_deposited_usd_value, ua.total_borrowed_usd_value,
            ti_tab.account.borrowed_amount, price, conversion, a.paying_off_insolvent_account, a.repay_max,
            a.amount_to_repay) {
            Outcome::Fail(e) => Outcome::Fail(e),
            Outcome::Abort => Outcome::Abort,
            Outcome::Done(t) => spec_same_sub_market_settle(c, sub_market_index, a, account_name,
                look_up_table_address, stats, sm, ti_tab, ti_st, price, conversion, t),
        }
    }
}

/// Two contexts of a liquidation within one sub market agree, user account names
/// compared by their characters.
pub open spec fn same_ssm(a: LiquidateAccountSameSubMarket, b: LiquidateAccountSameSubMarket) -> bool {
    &&& same_user_account(a.liquidator_lending_account, b.liquidator_lending_account)
    &&& same_user_account(a.liquidati_lending_account, b.liquidati_lending_account)
    &&& a == (LiquidateAccountSameSubMarket {
        liquidator_lending_account: a.liquidator_lending_account,
        liquidati_lending_account: a.liquidati_lending_account,
        ..b
    })
}

/// The liquidator's side of a liquidation within one sub market (see
/// `spec_same_sub_market_settle`).
#[verifier::rlimit(60)]
fn same_sub_market_settle(
    ctx: LiquidateAccountSameSubMarket,
    sub_market_index: u16,
    args: LiquidationArgs,
    account_name: Option<String>,
    look_up_table_address: Option<Pubkey>,
    stats: Keyed<LendingStats>,
    sm: Keyed<SubMarket>,
    ti_tab: Keyed<LendingUserTabAccount>,
    ti_st: Keyed<LendingUserMonthlyStatementAccount>,
    price: u128,
    conversion: u128,
    terms: (u64, u128, u128),
) -> (r: Result<(LiquidateAccountSameSubMarket, Effects), LendingError>)
    requires
        !(spec_same_sub_market_settle(ctx, sub_market_index, args, account_name, look_up_table_address, stats, sm,
            ti_tab, ti_st, price, conversion as nat, terms) is Abort),
    ensures
        match spec_same_sub_market_settle(ctx, sub_market_index, args, account_name, look_up_table_address, stats, sm,
            ti_tab, ti_st, price, conversion as nat, terms) {
            Outcome::Done(p) => r matches Ok(q) && same_ssm(q.0, p.0) && q.1 == p.1,
            Outcome::Fail(e) => r matches Err(f) && f == e,
            Outcome::Abort => false,
        },
{
    let mut c = ctx;
    let (ra, rv, nb) = terms;
    let token_id = c.token_reserve.token_id;
    c.liquidati_lending_account.total_borrowed_usd_value = nb;
    ensure_lending_user_account(&mut c.liquidator_lending_account, account_name, "Generic Liquidator",
        look_up_table_address, c.liquidator_lending_account_bump, c.signer, args.liquidator_account_index)?;
    ensure_lending_user_tab_account(&mut c.liquidator_lending_account, &mut c.liquidator_tab_account,
        &c.lending_protocol, c.liquidator_tab_account_bump, token_id, c.sub_market_owner, sub_market_index, c.signer,
        args.liquidator_account_index)?;
    ensure_monthly_statement(&mut c.liquidator_monthly_statement_account, &c.liquidator_tab_account,
        &c.lending_protocol, c.liquidator_monthly_statement_account_bump, token_id, c.sub_market_owner,
        sub_market_index, c.signer, args.liquidator_account_index);

    let mut sub_market = sm.account;
    let mut liquidati_tab = ti_tab.account;
    let mut liquidati_st = ti_st.account;
    let mut lending_stats = stats.account;
    settle_tab(&mut c.token_reserve, &mut sub_market, &mut c.liquidator_tab_account,
        &mut c.liquidator_monthly_statement_account)?;
    let (bonus, fee) = seized_collateral(rv, conversion, price, liquidati_tab.deposited_amount);
    book_repayment(&mut c.token_reserve, &mut sub_market, &mut liquidati_tab, &mut c.liquidator_tab_account,
        &mut liquidati_st, &mut c.liquidator_monthly_statement_account, ra);
    book_seizure(&mut c.token_reserve, &mut sub_market, &mut liquidati_tab, &mut c.liquidator_tab_account,
        &mut liquidati_st, &mut c.liquidator_monthly_statement_account, bonus, fee, args.send_reward_to_wallet);
    check_oracle_account(c.oracle_account, c.price_validator.address)?;
    lending_stats.liquidations = lending_stats.liquidations + 1;
    rates_and_sync2(&mut c.token_reserve, &mut sub_market, &mut liquidati_tab, &mut c.liquidator_tab_account);

    let liquidation_amount = bonus + fee;
    let ts = c.token_reserve.last_lending_activity_time_stamp;
    c.token_reserve.last_lending_activity_amount = liquidation_amount;
    c.token_reserve.last_lending_activity_type = ACTIVITY_LIQUIDATE;
    sub_market.last_lending_activity_amount = liquidation_amount;
    sub_market.last_lending_activity_type = ACTIVITY_LIQUIDATE;
    sub_market.last_lending_activity_time_stamp = ts;
    liquidati_st.last_lending_activity_amount = liquidation_amount;
    liquidati_st.last_lending_activity_type = ACTIVITY_LIQUIDATE;
    liquidati_st.last_lending_activity_time_stamp = ts;
    c.liquidator_monthly_statement_account.last_lending_activity_amount = liquidation_amount;
    c.liquidator_monthly_statement_account.last_lending_activity_type = ACTIVITY_LIQUIDATE;
    c.liquidator_monthly_statement_account.last_lending_activity_time_stamp = ts;

    c.lending_stats = Some(Keyed { key: stats.key, account: lending_stats });
    c.sub_market = Some(Keyed { key: sm.key, account: sub_market });
    c.liquidati_tab_account = Some(Keyed { key: ti_tab.key, account: liquidati_tab });
    c.liquidati_monthly_statement_account = Some(Keyed { key: ti_st.key, account: liquidati_st });
    Ok((c, Effects {
        into_reserve: Some(ra),
        out_of_reserve: if args.send_reward_to_wallet { Some(bonus) } else { None },
        refund_oracle_fees: true,
    }))
}

/// Liquidates part of a user's position when repayment and collateral are in the same
/// sub market (see `spec_liquidate_account_same_sub_market`).
pub fn liquidate_account_same_sub_market(
    ctx: LiquidateAccountSameSubMarket,
    sub_market_index: u16,
    args: LiquidationArgs,
    account_name: Option<String>,
    look_up_table_address: Option<Pubkey>,
) -> (r: Result<(LiquidateAccountSameSubMarket, Effects), LendingError>)
    requires
        !(spec_liquidate_account_same_sub_market(ctx, sub_market_index, args, account_name, look_up_table_address)
            is Abort),
    ensures
        match spec_liquidate_account_same_sub_market(ctx, sub_market_index, args, account_name, look_up_table_address) {
            Outcome::Done(p) => r matches Ok(q) && same_ssm(q.0, p.0) && q.1 == p.1,
            Outcome::Fail(e) => r matches Err(f) && f == e,
            Outcome::Abort => false,
        },
{
    if ctx.liquidati_lending_account.last_health_update_clock_slot != ctx.clock_slot {
        return Err(LendingError::StaleTokenReserveOrLendingUser);
    }
    let token_id = ctx.token_reserve.token_id;
    check_temp_price_account(ctx.program_id, &ctx.temp_price_account, ctx.signer)?;
    let stats = check_lending_stats(ctx.program_id, ctx.lending_stats)?;
    let sm = check_sub_market(ctx.program_id, ctx.sub_market, token_id, ctx.sub_market_owner, sub_market_index)?;
    let ti_tab = check_tab_account(ctx.program_id, ctx.liquidati_tab_account, token_id, ctx.sub_market_owner,
        sub_market_index, ctx.liquidati_account_owner, args.liquidati_account_index)?;
    let ti_st = check_statement_account(ctx.program_id, ctx.liquidati_monthly_statement_account,
        &ctx.lending_protocol, token_id, ctx.sub_market_owner, sub_market_index, ctx.liquidati_account_owner,
        args.liquidati_account_index)?;
    let price = read_price(&ctx.temp_price_account, ctx.clock_slot, token_id)?;
    same_sub_market_terms(ctx, sub_market_index, args, account_name, look_up_table_address, stats, sm, ti_tab, ti_st,
        price)
}

/// A liquidation within one sub market once the price is read (see
/// `spec_same_sub_market_terms`).
fn same_sub_market_terms(
    ctx: LiquidateAccountSameSubMarket,
    sub_market_index: u16,
    args: LiquidationArgs,
    account_name: Option<String>,
    look_up_table_address: Option<Pubkey>,
    stats: Keyed<LendingStats>,
    sm: Keyed<SubMarket>,
    ti_tab: Keyed<LendingUserTabAccount>,
    ti_st: Keyed<LendingUserMonthlyStatementAccount>,
    price: u128,
) -> (r: Result<(LiquidateAccountSameSubMarket, Effects), LendingError>)
    requires
        !(spec_same_sub_market_terms(ctx, sub_market_index, args, account_name, look_up_table_address, stats, sm,
            ti_tab, ti_st, price) is Abort),
    ensures
        match spec_same_sub_market_terms(ctx, sub_market_index, args, account_name, look_up_table_address, stats, sm,
            ti_tab, ti_st, price) {
            Outcome::Done(p) => r matches Ok(q) && same_ssm(q.0, p.0) && q.1 == p.1,
            Outcome::Fail(e) => r matches Err(f) && f == e,
            Outcome::Abort => false,
        },
{
    let conversion = token_conversion_number(ctx.token_reserve.token_decimal_amount);
    proof { crate::oracle::lemma_pow10_positive(ctx.token_reserve.token_decimal_amount as nat); }
    let terms = liquidation_terms(ctx.liquidati_lending_account.total_deposited_usd_value,
        ctx.liquidati_lending_account.total_borrowed_usd_value, ti_tab.account.borrowed_amount, price, conversion,
        args.paying_off_insolvent_account, args.repay_max, args.amount_to_repay)?;
    same_sub_market_settle(ctx, sub_market_index, args, account_name, look_up_table_address, stats, sm, ti_tab, ti_st,
        price, conversion, terms)
}

/// The accounts and readings a liquidation within one token reserve (across two sub
/// markets) works on.
pub struct LiquidateAccountSameToken {
    pub program_id: Pubkey,
    pub signer: Pubkey,
    pub repayment_sub_market_owner: Pubkey,
    pub liquidation_sub_market_owner: Pubkey,
    pub liquidati_account_owner: Pubkey,
    pub lending_protocol: LendingProtocol,
    pub price_validator: OraclePriceValidator,
    pub token_reserve: TokenReserve,
    pub liquidati_lending_account: LendingUserAccount,
    pub liquidator_lending_account: LendingUserAccount,
    pub liquidator_repayment_tab_account: LendingUserTabAccount,
    pub liquidator_liquidation_tab_account: LendingUserTabAccount,
    pub liquidator_repayment_monthly_statement_account: LendingUserMonthlyStatementAccount,
    pub liquidator_liquidation_monthly_statement_account: LendingUserMonthlyStatementAccount,
    pub liquidator_lending_account_bump: u8,
    pub liquidator_repayment_tab_account_bump: u8,
    pub liquidator_liquidation_tab_account_bump: u8,
    pub liquidator_repayment_monthly_statement_account_bump: u8,
    pub liquidator_liquidation_monthly_statement_account_bump: u8,
    pub clock_slot: u64,
    pub temp_price_account: Option<Keyed<TempOraclePriceAccount>>,
    pub lending_stats: Option<Keyed<LendingStats>>,
    pub repayment_sub_market: Option<Keyed<SubMarket>>,
    pub liquidation_sub_market: Option<Keyed<SubMarket>>,
    pub liquidati_repayment_tab_account: Option<Keyed<LendingUserTabAccount>>,
    pub liquidati_liquidation_tab_account: Option<Keyed<LendingUserTabAccount>>,
    pub liquidati_repayment_monthly_statement_account: Option<Keyed<LendingUserMonthlyStatementAccount>>,
    pub liquidati_liquidation_monthly_statement_account: Option<Keyed<LendingUserMonthlyStatementAccount>>,
    pub oracle_account: Option<Pubkey>,
}

/// The sub markets, tabs and statements of a liquidation across two sub markets, as
/// handed in and checked.
pub struct TwoMarketAccounts {
    pub stats: Keyed<LendingStats>,
    pub rep_sm: Keyed<SubMarket>,
    pub liq_sm: Keyed<SubMarket>,
    pub ti_rep_tab: Keyed<LendingUserTabAccount>,
    pub ti_liq_tab: Keyed<LendingUserTabAccount>,
    pub ti_rep_st: Keyed<LendingUserMonthlyStatementAccount>,
    pub ti_liq_st: Keyed<LendingUserMonthlyStatementAccount>,
}

/// The sub market indexes of a liquidation across two sub markets.
#[derive(Debug, Clone, Copy)]
pub struct SubMarketPair {
    pub repayment_sub_market_index: u16,
    pub liquidation_sub_market_index: u16,
}

/// Two contexts of a liquidation within one token reserve agree, user account names
/// compared by their characters.
pub open spec fn same_lst(a: LiquidateAccountSameToken, b: LiquidateAccountSameToken) -> bool {
    &&& same_user_account(a.liquidator_lending_account, b.liquidator_lending_account)
    &&& same_user_account(a.liquidati_lending_account, b.liquidati_lending_account)
    &&& a == (LiquidateAccountSameToken {
        liquidator_lending_account: a.liquidator_lending_account,
        liquidati_lending_account: a.liquidati_lending_account,
        ..b
    })
}

/// The liquidator's accounts of a liquidation across two sub markets of one token:
/// lending account, then both tabs, then both statements, set up when new.
pub open spec fn spec_same_token_liquidator_setup(
    c: LiquidateAccountSameToken,
    m: SubMarketPair,
    a: LiquidationArgs,
    account_name: Option<String>,
    look_up_table_address: Option<Pubkey>,
) -> Outcome<(LendingUserAccount, LendingUserTabAccount, LendingUserTabAccount, LendingUserMonthlyStatementAccount,
    LendingUserMonthlyStatementAccount)> {
    let token_id = c.token_reserve.token_id;
    match spec_ensure_user_account(c.liquidator_lending_account, account_name, "Generic Liquidator"@,
        look_up_table_address, c.liquidator_lending_account_bump, c.signer, a.liquidator_account_index) {
        Outcome::Fail(e) => Outcome::Fail(e),
        Outcome::Abort => Outcome::Abort,
        Outcome::Done(ua1) => match spec_ensure_tab(ua1, c.liquidator_repayment_tab_account, c.lending_protocol,
            c.liquidator_repayment_tab_account_bump, token_id, c.repayment_sub_market_owner,
            m.repayment_sub_market_index, c.signer, a.liquidator_account_index) {
            Outcome::Fail(e) => Outcome::Fail(e),
            Outcome::Abort => Outcome::Abort,
            Outcome::Done(p) => match spec_ensure_tab(p.0, c.liquidator_liquidation_tab_account, c.lending_protocol,
                c.liquidator_liquidation_tab_account_bump, token_id, c.liquidation_sub_market_owner,
                m.liquidation_sub_market_index, c.signer, a.liquidator_account_index) {
                Outcome::Fail(e) => Outcome::Fail(e),
                Outcome::Abort => Outcome::Abort,
                Outcome::Done(q) => Outcome::Done((
                    q.0,
                    p.1,
                    q.1,
                    spec_ensure_statement(c.liquidator_repayment_monthly_statement_account, p.1, c.lending_protocol,
                        c.liquidator_repayment_monthly_statement_account_bump, token_id, c.repayment_sub_market_owner,
                        m.repayment_sub_market_index, c.signer, a.liquidator_account_index),
                    spec_ensure_statement(c.liquidator_liquidation_monthly_statement_account, q.1, c.lending_protocol,
                        c.liquidator_liquidation_monthly_statement_account_bump, token_id,
                        c.liquidation_sub_market_owner, m.liquidation_sub_market_index, c.signer,
                        a.liquidator_account_index),
                )),
            },
        },
    }
}

/// Sets up the liquidator's accounts (see `spec_same_token_liquidator_setup`).
fn same_token_liquidator_setup(
    c: &mut LiquidateAccountSameToken,
    m: SubMarketPair,
    args: LiquidationArgs,
    account_name: Option<String>,
    look_up_table_address: Option<Pubkey>,
) -> (r: Result<(), LendingError>)
    requires
        !(spec_same_token_liquidator_setup(*old(c), m, args, account_name, look_up_table_address) is Abort),
    ensures
        match spec_same_token_liquidator_setup(*old(c), m, args, account_name, look_up_table_address) {
            Outcome::Done(p) => r is Ok && same_user_account(final(c).liquidator_lending_account, p.0)
                && *final(c) == (LiquidateAccountSameToken {
                    liquidator_lending_account: final(c).liquidator_lending_account,
                    liquidator_repayment_tab_account: p.1,
                    liquidator_liquidation_tab_account: p.2,
                    liquidator_repayment_monthly_statement_account: p.3,
                    liquidator_liquidation_monthly_statement_account: p.4,
                    ..*old(c)
                }),
            Outcome::Fail(e) => r matches Err(f) && f == e,
            Outcome::Abort => false,
        },
{
    let token_id = c.token_reserve.token_id;
    ensure_lending_user_account(&mut c.liquidator_lending_account, account_name, "Generic Liquidator",
        look_up_table_address, c.liquidator_lending_account_bump, c.signer, args.liquidator_account_index)?;
    let ghost ua1 = c.liquidator_lending_account;
    ensure_lending_user_tab_account(&mut c.liquidator_lending_account, &mut c.liquidator_repayment_tab_account,
        &c.lending_protocol, c.liquidator_repayment_tab_account_bump, token_id, c.repayment_sub_market_owner,
        m.repayment_sub_market_index, c.signer, args.liquidator_account_index)?;
    ensure_lending_user_tab_account(&mut c.liquidator_lending_account, &mut c.liquidator_liquidation_tab_account,
        &c.lending_protocol, c.liquidator_liquidation_tab_account_bump, token_id, c.liquidation_sub_market_owner,
        m.liquidation_sub_market_index, c.signer, args.liquidator_account_index)?;
    ensure_monthly_statement(&mut c.liquidator_repayment_monthly_statement_account,
        &c.liquidator_repayment_tab_account, &c.lending_protocol,
        c.liquidator_repayment_monthly_statement_account_bump, token_id, c.repayment_sub_market_owner,
        m.repayment_sub_market_index, c.signer, args.liquidator_account_index);
    ensure_monthly_statement(&mut c.liquidator_liquidation_monthly_statement_account,
        &c.liquidator_liquidation_tab_account, &c.lending_protocol,
        c.liquidator_liquidation_monthly_statement_account_bump, token_id, c.liquidation_sub_market_owner,
        m.liquidation_sub_market_index, c.signer, args.liquidator_account_index);
    Ok(())
}

/// The booking of a liquidation within one token reserve, once the liquidator's accounts
/// are set up and settled: repayment in the repayment sub market, seizure in the
/// liquidation sub market, one rate update, and the activity records.
pub open spec fn spec_same_token_book(
    c: LiquidateAccountSameToken,
    x: TwoMarketAccounts,
    tr: TokenReserve,
    rep_sm: SubMarket,
    liq_sm: SubMarket,
    to_rep_tab: LendingUserTabAccount,
    to_liq_tab: LendingUserTabAccount,
    to_rep_st: LendingUserMonthlyStatementAccount,
    to_liq_st: LendingUserMonthlyStatementAccount,
    ra: u64,
    bonus: u64,
    fee: u64,
    send_reward_to_wallet: bool,
) -> Outcome<(LiquidateAccountSameToken, Effects)> {
    match spec_book_repayment(tr, rep_sm, x.ti_rep_tab.account, to_rep_tab, x.ti_rep_st.account, to_rep_st, ra) {
        Outcome::Fail(e) => Outcome::Fail(e),
        Outcome::Abort => Outcome::Abort,
        Outcome::Done(b) => match spec_book_seizure(b.0, liq_sm, x.ti_liq_tab.account, to_liq_tab,
            x.ti_liq_st.account, to_liq_st, bonus, fee, send_reward_to_wallet) {
            Outcome::Fail(e) => Outcome::Fail(e),
            Outcome::Abort => Outcome::Abort,
            Outcome::Done(d) => match spec_oracle_check(c.oracle_account, c.price_validator.address) {
                Err(e) => Outcome::Fail(e),
                Ok(_) => if x.stats.account.liquidations + 1 > u128::MAX || !rates_computable(d.0) {
                    Outcome::Abort
                } else {
                    let y = spec_rates_and_sync2(d.0, b.1, b.2, b.3);
                    let t = y.0;
                    let liq = (bonus + fee) as u64;
                    let ts = t.last_lending_activity_time_stamp;
                    let liq_sm2 = SubMarket {
                        supply_interest_change_index: t.supply_interest_change_index,
                        borrow_interest_change_index: t.borrow_interest_change_index,
                        ..d.1
                    };
                    Outcome::Done((
                        LiquidateAccountSameToken {
                            token_reserve: stamp_reserve(t, liq, ACTIVITY_LIQUIDATE),
                            liquidator_repayment_tab_account: y.3,
                            liquidator_liquidation_tab_account: sync_tab(d.3, t),
                            liquidator_repayment_monthly_statement_account: stamp_statement(b.5, ra, ACTIVITY_REPAY, ts),
                            liquidator_liquidation_monthly_statement_account:
                                stamp_statement(d.5, liq, ACTIVITY_LIQUIDATE, ts),
                            lending_stats: Some(Keyed {
                                key: x.stats.key,
                                account: LendingStats { liquidations: (x.stats.account.liquidations + 1) as u128, ..x.stats.account },
                            }),
                            repayment_sub_market: Some(Keyed { key: x.rep_sm.key,
                                account: stamp_sub_market(y.1, ra, ACTIVITY_REPAY, ts) }),
                            liquidation_sub_market: Some(Keyed { key: x.liq_sm.key,
                                account: stamp_sub_market(liq_sm2, liq, ACTIVITY_LIQUIDATE, ts) }),
                            liquidati_repayment_tab_account: Some(Keyed { key: x.ti_rep_tab.key, account: y.2 }),
                            liquidati_liquidation_tab_account: Some(Keyed { key: x.ti_liq_tab.key,
                                account: sync_tab(d.2, t) }),
                            liquidati_repayment_monthly_statement_account: Some(Keyed { key: x.ti_rep_st.key,
                                account: stamp_statement(b.4, ra, ACTIVITY_REPAY, ts) }),
                            liquidati_liquidation_monthly_statement_account: Some(Keyed { key: x.ti_liq_st.key,
                                account: stamp_statement(d.4, liq, ACTIVITY_LIQUIDATE, ts) }),
                            ..c
                        },
                        Effects {
                            into_reserve: Some(ra),
                            out_of_reserve: if send_reward_to_wallet { Some(bonus) } else { None },
                            refund_oracle_fees: true,
                        },
                    ))
                },
            },
        },
    }
}

/// Books a liquidation within one token reserve (see `spec_same_token_book`).
#[verifier::rlimit(60)]
fn same_token_book(
    ctx: LiquidateAccountSameToken,
    x: TwoMarketAccounts,
    ra: u64,
    bonus: u64,
    fee: u64,
    send_reward_to_wallet: bool,
    rep_sm: SubMarket,
    liq_sm: SubMarket,
) -> (r: Result<(LiquidateAccountSameToken, Effects), LendingError>)
    requires
        !(spec_same_token_book(ctx, x, ctx.token_reserve, rep_sm, liq_sm, ctx.liquidator_repayment_tab_account,
            ctx.liquidator_liquidation_tab_account, ctx.liquidator_repayment_monthly_statement_account,
            ctx.liquidator_liquidation_monthly_statement_account, ra, bonus, fee, send_reward_to_wallet) is Abort),
    ensures
        match spec_same_token_book(ctx, x, ctx.token_reserve, rep_sm, liq_sm, ctx.liquidator_repayment_tab_account,
            ctx.liquidator_liquidation_tab_account, ctx.liquidator_repayment_monthly_statement_account,
            ctx.liquidator_liquidation_monthly_statement_account, ra, bonus, fee, send_reward_to_wallet) {
            Outcome::Done(p) => r matches Ok(q) && q.0 == p.0 && q.1 == p.1,
            Outcome::Fail(e) => r matches Err(f) && f == e,
            Outcome::Abort => false,
        },
{
    let mut c = ctx;
    let mut rep_sm = rep_sm;
    let mut liq_sm = liq_sm;
    let mut ti_rep_tab = x.ti_rep_tab.account;
    let mut ti_liq_tab = x.ti_liq_tab.account;
    let mut ti_rep_st = x.ti_rep_st.account;
    let mut ti_liq_st = x.ti_liq_st.account;
    let mut lending_stats = x.stats.account;
    book_repayment(&mut c.token_reserve, &mut rep_sm, &mut ti_rep_tab, &mut c.liquidator_repayment_tab_account,
        &mut ti_rep_st, &mut c.liquidator_repayment_monthly_statement_account, ra);
    book_seizure(&mut c.token_reserve, &mut liq_sm, &mut ti_liq_tab, &mut c.liquidator_liquidation_tab_account,
        &mut ti_liq_st, &mut c.liquidator_liquidation_monthly_statement_account, bonus, fee, send_reward_to_wallet);
    check_oracle_account(c.oracle_account, c.price_validator.address)?;
    lending_stats.liquidations = lending_stats.liquidations + 1;
    rates_and_sync2(&mut c.token_reserve, &mut rep_sm, &mut ti_rep_tab, &mut c.liquidator_repayment_tab_account);
    liq_sm.supply_interest_change_index = c.token_reserve.supply_interest_change_index;
    liq_sm.borrow_interest_change_index = c.token_reserve.borrow_interest_change_index;
    ti_liq_tab.supply_interest_change_index = c.token_reserve.supply_interest_change_index;
    ti_liq_tab.borrow_interest_change_index = c.token_reserve.borrow_interest_change_index;
    c.liquidator_liquidation_tab_account.supply_interest_change_index = c.token_reserve.supply_interest_change_index;
    c.liquidator_liquidation_tab_account.borrow_interest_change_index = c.token_reserve.borrow_interest_change_index;

    let liquidation_amount = bonus + fee;
    let ts = c.token_reserve.last_lending_activity_time_stamp;
    c.token_reserve.last_lending_activity_amount = liquidation_amount;
    c.token_reserve.last_lending_activity_type = ACTIVITY_LIQUIDATE;
    rep_sm.last_lending_activity_amount = ra;
    rep_sm.last_lending_activity_type = ACTIVITY_REPAY;
    rep_sm.last_lending_activity_time_stamp = ts;
    liq_sm.last_lending_activity_amount = liquidation_amount;
    liq_sm.last_lending_activity_type = ACTIVITY_LIQUIDATE;
    liq_sm.last_lending_activity_time_stamp = ts;
    ti_rep_st.last_lending_activity_amount = ra;
    ti_rep_st.last_lending_activity_type = ACTIVITY_REPAY;
    ti_rep_st.last_lending_activity_time_stamp = ts;
    ti_liq_st.last_lending_activity_amount = liquidation_amount;
    ti_liq_st.last_lending_activity_type = ACTIVITY_LIQUIDATE;
    ti_liq_st.last_lending_activity_time_stamp = ts;
    c.liquidator_repayment_monthly_statement_account.last_lending_activity_amount = ra;
    c.liquidator_repayment_monthly_statement_account.last_lending_activity_type = ACTIVITY_REPAY;
    c.liquidator_repayment_monthly_statement_account.last_lending_activity_time_stamp = ts;
    c.liquidator_liquidation_monthly_statement_account.last_lending_activity_amount = liquidation_amount;
    c.liquidator_liquidation_monthly_statement_account.last_lending_activity_type = ACTIVITY_LIQUIDATE;
    c.liquidator_liquidation_monthly_statement_account.last_lending_activity_time_stamp = ts;

    c.lending_stats = Some(Keyed { key: x.stats.key, account: lending_stats });
    c.repayment_sub_market = Some(Keyed { key: x.rep_sm.key, account: rep_sm });
    c.liquidation_sub_market = Some(Keyed { key: x.liq_sm.key, account: liq_sm });
    c.liquidati_repayment_tab_account = Some(Keyed { key: x.ti_rep_tab.key, account: ti_rep_tab });
    c.liquidati_liquidation_tab_account = Some(Keyed { key: x.ti_liq_tab.key, account: ti_liq_tab });
    c.liquidati_repayment_monthly_statement_account = Some(Keyed { key: x.ti_rep_st.key, account: ti_rep_st });
    c.liquidati_liquidation_monthly_statement_account = Some(Keyed { key: x.ti_liq_st.key, account: ti_liq_st });
    Ok((c, Effects {
        into_reserve: Some(ra),
        out_of_reserve: if send_reward_to_wallet { Some(bonus) } else { None },
        refund_oracle_fees: true,
    }))
}

/// The liquidator's side of a liquidation within one token reserve, once the terms are
/// known: accounts set up, interest settled on both tabs, collateral seized, booked.
pub open spec fn spec_same_token_settle(
    c: LiquidateAccountSameToken,
    m: SubMarketPair,
    a: LiquidationArgs,
    account_name: Option<String>,
    look_up_table_address: Option<Pubkey>,
    x: TwoMarketAccounts,
    price: u128,
    conversion: nat,
    terms: (u64, u128, u128),
) -> Outcome<(LiquidateAccountSameToken, Effects)> {
    let (ra, rv, nb) = terms;
    match spec_same_token_liquidator_setup(c, m, a, account_name, look_up_table_address) {
        Outcome::Fail(e) => Outcome::Fail(e),
        Outcome::Abort => Outcome::Abort,
        Outcome::Done(u) => match spec_step_settle_tab(c.token_reserve, x.rep_sm.account, u.1, u.3) {
            Outcome::Fail(e) => Outcome::Fail(e),
            Outcome::Abort => Outcome::Abort,
            Outcome::Done(s1) => match spec_step_settle_tab(s1.0, x.liq_sm.account, u.2, u.4) {
                Outcome::Fail(e) => Outcome::Fail(e),
                Outcome::Abort => Outcome::Abort,
                Outcome::Done(s2) => match spec_seized(rv, conversion, price, x.ti_liq_tab.account.deposited_amount) {
                    Outcome::Fail(e) => Outcome::Fail(e),
                    Outcome::Abort => Outcome::Abort,
                    Outcome::Done(z) => {
                        let c1 = LiquidateAccountSameToken {
                            token_reserve: s2.0,
                            liquidati_lending_account: LendingUserAccount {
                                total_borrowed_usd_value: nb,
                                ..c.liquidati_lending_account
                            },
                            liquidator_repayment_tab_account: s1.2,
                            liquidator_liquidation_tab_account: s2.2,
                            liquidator_repayment_monthly_statement_account: s1.3,
                            liquidator_liquidation_monthly_statement_account: s2.3,
                            ..c
                        };
                        match spec_same_token_book(c1, x, s2.0, s1.1, s2.1, s1.2, s2.2, s1.3, s2.3, ra, z.0, z.1,
                            a.send_reward_to_wallet) {
                            Outcome::Fail(e) => Outcome::Fail(e),
                            Outcome::Abort => Outcome::Abort,
                            Outcome::Done(p) => Outcome::Done((
                                LiquidateAccountSameToken { liquidator_lending_account: u.0, ..p.0 },
                                p.1,
                            )),
                        }
                    },
                },
            },
        },
    }
}

/// The liquidator's side of a liquidation within one token reserve (see
/// `spec_same_token_settle`).
#[verifier::rlimit(60)]
fn same_token_settle(
    ctx: LiquidateAccountSameToken,
    m: SubMarketPair,
    args: LiquidationArgs,
    account_name: Option<String>,
    look_up_table_address: Option<Pubkey>,
    x: TwoMarketAccounts,
    price: u128,
    conversion: u128,
    terms: (u64, u128, u128),
) -> (r: Result<(LiquidateAccountSameToken, Effects), LendingError>)
    requires
        !(spec_same_token_settle(ctx, m, args, account_name, look_up_table_address, x, price, conversion as nat, terms)
            is Abort),
    ensures
        match spec_same_token_settle(ctx, m, args, account_name, look_up_table_address, x, price, conversion as nat,
            terms) {
            Outcome::Done(p) => r matches Ok(q) && same_lst(q.0, p.0) && q.1 == p.1,
            Outcome::Fail(e) => r matches Err(f) && f == e,
            Outcome::Abort => false,
        },
{
    let mut c = ctx;
    let (ra, rv, nb) = terms;
    let mut held = c.liquidator_lending_account.duplicate();
    same_token_liquidator_setup(&mut c, m, args, account_name, look_up_table_address)?;
    std::mem::swap(&mut c.liquidator_lending_account, &mut held);
    let mut rep_sm = x.rep_sm.account;
    let mut liq_sm = x.liq_sm.account;
    settle_tab(&mut c.token_reserve, &mut rep_sm, &mut c.liquidator_repayment_tab_account,
        &mut c.liquidator_repayment_monthly_statement_account)?;
    settle_tab(&mut c.token_reserve, &mut liq_sm, &mut c.liquidator_liquidation_tab_account,
        &mut c.liquidator_liquidation_monthly_statement_account)?;
    let (bonus, fee) = seized_collateral(rv, conversion, price, x.ti_liq_tab.account.deposited_amount);
    c.liquidati_lending_account.total_borrowed_usd_value = nb;
    let send = args.send_reward_to_wallet;
    let (mut out, effects) = same_token_book(c, x, ra, bonus, fee, send, rep_sm, liq_sm)?;
    std::mem::swap(&mut out.liquidator_lending_account, &mut held);
    Ok((out, effects))
}

/// A liquidation across two sub markets of one token reserve: the liquidated user's
/// health must be from this slot; the extra accounts are checked; the terms are set by
/// the price; then the liquidator repays and seizes (see `spec_same_token_settle`).
pub open spec fn spec_liquidate_account_same_token(
    c: LiquidateAccountSameToken,
    m: SubMarketPair,
    a: LiquidationArgs,
    account_name: Option<String>,
    look_up_table_address: Option<Pubkey>,
) -> Outcome<(LiquidateAccountSameToken, Effects)> {
    if c.liquidati_lending_account.last_health_update_clock_slot != c.clock_slot {
        Outcome::Fail(LendingError::StaleTokenReserveOrLendingUser)
    } else {
        match spec_check_temp(c.program_id, c.temp_price_account, c.signer) {
            Outcome::Fail(e) => Outcome::Fail(e),
            Outcome::Abort => Outcome::Abort,
            Outcome::Done(temp) => match spec_check_two_markets(c, m, a) {
                Outcome::Fail(e) => Outcome::Fail(e),
                Outcome::Abort => Outcome::Abort,
                Outcome::Done(x) => spec_same_token_priced(c, m, a, account_name, look_up_table_address, temp.account,
                    x),
            },
        }
    }
}

/// The extra accounts of a liquidation across two sub markets, checked in turn: the
/// statistics, both sub markets, the liquidated user's two tabs and two statements.
pub open spec fn spec_check_two_markets(c: LiquidateAccountSameToken, m: SubMarketPair, a: LiquidationArgs)
    -> Outcome<TwoMarketAccounts> {
    let tr = c.token_reserve;
    let pid = c.program_id;
    match spec_check_stats(pid, c.lending_stats) {
        Outcome::Fail(e) => Outcome::Fail(e),
        Outcome::Abort => Outcome::Abort,
        Outcome::Done(stats) => match spec_check_sub_market(pid, c.repayment_sub_market, tr.token_id,
            c.repayment_sub_market_owner, m.repayment_sub_market_index) {
            Outcome::Fail(e) => Outcome::Fail(e),
            Outcome::Abort => Outcome::Abort,
            Outcome::Done(rep_sm) => match spec_check_sub_market(pid, c.liquidation_sub_market, tr.token_id,
                c.liquidation_sub_market_owner, m.liquidation_sub_market_index) {
                Outcome::Fail(e) => Outcome::Fail(e),
                Outcome::Abort => Outcome::Abort,
                Outcome::Done(liq_sm) => match spec_check_tab(pid, c.liquidati_repayment_tab_account,
                    tr.token_id, c.repayment_sub_market_owner, m.repayment_sub_market_index,
                    c.liquidati_account_owner, a.liquidati_account_index) {
                    Outcome::Fail(e) => Outcome::Fail(e),
                    Outcome::Abort => Outcome::Abort,
                    Outcome::Done(ti_rep_tab) => match spec_check_tab(pid, c.liquidati_liquidation_tab_account,
                        tr.token_id, c.liquidation_sub_market_owner, m.liquidation_sub_market_index,
                        c.liquidati_account_owner, a.liquidati_account_index) {
                        Outcome::Fail(e) => Outcome::Fail(e),
                        Outcome::Abort => Outcome::Abort,
                        Outcome::Done(ti_liq_tab) => match spec_check_statement(pid,
                            c.liquidati_repayment_monthly_statement_account, c.lending_protocol, tr.token_id,
                            c.repayment_sub_market_owner, m.repayment_sub_market_index,
                            c.liquidati_account_owner, a.liquidati_account_index) {
                            Outcome::Fail(e) => Outcome::Fail(e),
                            Outcome::Abort => Outcome::Abort,
                            Outcome::Done(ti_rep_st) => match spec_check_statement(pid,
                                c.liquidati_liquidation_monthly_statement_account, c.lending_protocol,
                                tr.token_id, c.liquidation_sub_market_owner, m.liquidation_sub_market_index,
                                c.liquidati_account_owner, a.liquidati_account_index) {
                                Outcome::Fail(e) => Outcome::Fail(e),
                                Outcome::Abort => Outcome::Abort,
                                Outcome::Done(ti_liq_st) => Outcome::Done(TwoMarketAccounts {
                                    stats: stats,
                                    rep_sm: rep_sm,
                                    liq_sm: liq_sm,
                                    ti_rep_tab: ti_rep_tab,
                                    ti_liq_tab: ti_liq_tab,
                                    ti_rep_st: ti_rep_st,
                                    ti_liq_st: ti_liq_st,
                                }),
                            },
                        },
                    },
                },
            },
        },
    }
}

/// Checks the extra accounts of a liquidation across two sub markets (see
/// `spec_check_two_markets`).
fn check_two_markets(ctx: &LiquidateAccountSameToken, m: SubMarketPair, args: LiquidationArgs)
    -> (r: Result<TwoMarketAccounts, LendingError>)
    requires
        !(spec_check_two_markets(*ctx, m, args) is Abort),
    ensures
        match spec_check_two_markets(*ctx, m, args) {
            Outcome::Done(x) => r matches Ok(y) && y == x,
            Outcome::Fail(e) => r matches Err(f) && f == e,
            Outcome::Abort => false,
        },
{
    let token_id = ctx.token_reserve.token_id;
    let pid = ctx.program_id;
    let stats = check_lending_stats(pid, ctx.lending_stats)?;
    let rep_sm = check_sub_market(pid, ctx.repayment_sub_market, token_id, ctx.repayment_sub_market_owner,
        m.repayment_sub_market_index)?;
    let liq_sm = check_sub_market(pid, ctx.liquidation_sub_market, token_id, ctx.liquidation_sub_market_owner,
        m.liquidation_sub_market_index)?;
    let ti_rep_tab = check_tab_account(pid, ctx.liquidati_repayment_tab_account, token_id,
        ctx.repayment_sub_market_owner, m.repayment_sub_market_index, ctx.liquidati_account_owner,
        args.liquidati_account_index)?;
    let ti_liq_tab = check_tab_account(pid, ctx.liquidati_liquidation_tab_account, token_id,
        ctx.liquidation_sub_market_owner, m.liquidation_sub_market_index, ctx.liquidati_account_owner,
        args.liquidati_account_index)?;
    let ti_rep_st = check_statement_account(pid, ctx.liquidati_repayment_monthly_statement_account,
        &ctx.lending_protocol, token_id, ctx.repayment_sub_market_owner, m.repayment_sub_market_index,
        ctx.liquidati_account_owner, args.liquidati_account_index)?;
    let ti_liq_st = check_statement_account(pid, ctx.liquidati_liquidation_monthly_statement_account,
        &ctx.lending_protocol, token_id, ctx.liquidation_sub_market_owner, m.liquidation_sub_market_index,
        ctx.liquidati_account_owner, args.liquidati_account_index)?;
    Ok(TwoMarketAccounts {
        stats: stats,
        rep_sm: rep_sm,
        liq_sm: liq_sm,
        ti_rep_tab: ti_rep_tab,
        ti_liq_tab: ti_liq_tab,
        ti_rep_st: ti_rep_st,
        ti_liq_st: ti_liq_st,
    })
}

/// A liquidation within one token reserve once its extra accounts are checked: the
/// price must be fresh and known, then the terms are set.
pub open spec fn spec_same_token_priced(
    c: LiquidateAccountSameToken,
    m: SubMarketPair,
    a: LiquidationArgs,
    account_name: Option<String>,
    look_up_table_address: Option<Pubkey>,
    temp: TempOraclePriceAccount,
    x: TwoMarketAccounts,
) -> Outcome<(LiquidateAccountSameToken, Effects)> {
    match spec_read_price(temp, c.clock_slot, c.token_reserve.token_id) {
        Err(e) => Outcome::Fail(e),
        Ok(price) => spec_same_token_terms(c, m, a, account_name, look_up_table_address, x, price),
    }
}

/// A liquidation within one token reserve once the price is read: the terms are set by
/// the price, then the liquidator repays and seizes.
pub open spec fn spec_same_token_terms(
    c: LiquidateAccountSameToken,
    m: SubMarketPair,
    a: LiquidationArgs,
    account_name: Option<String>,
    look_up_table_address: Option<Pubkey>,
    x: TwoMarketAccounts,
    price: u128,
) -> Outcome<(LiquidateAccountSameToken, Effects)> {
    let tr = c.token_reserve;
    if tr.token_decimal_amount > 38 {
        Outcome::Abort
    } else {
        let conversion = pow10(tr.token_decimal_amount as nat);
        let ua = c.liquidati_lending_account;
        match spec_liquidation_terms(ua.total_deposited_usd_value, ua.total_borrowed_usd_value,
            x.ti_rep_tab.account.borrowed_amount, price, conversion, a.paying_off_insolvent_account,
            a.repay_max, a.amount_to_repay) {
            Outcome::Fail(e) => Outcome::Fail(e),
            Outcome::Abort => Outcome::Abort,
            Outcome::Done(t) => spec_same_token_settle(c, m, a, account_name, look_up_table_address, x, price,
                conversion, t),
        }
    }
}

/// Liquidates part of a user's position when repayment and collateral are the same
/// token in two sub markets (see `spec_liquidate_account_same_token`).
pub fn liquidate_account_same_token(
    ctx: LiquidateAccountSameToken,
    sub_markets: SubMarketPair,
    args: LiquidationArgs,
    account_name: Option<String>,
    look_up_table_address: Option<Pubkey>,
) -> (r: Result<(LiquidateAccountSameToken, Effects), LendingError>)
    requires
        !(spec_liquidate_account_same_token(ctx, sub_markets, args, account_name, look_up_table_address) is Abort),
    ensures
        match spec_liquidate_account_same_token(ctx, sub_markets, args, account_name, look_up_table_address) {
            Outcome::Done(p) => r matches Ok(q) && same_lst(q.0, p.0) && q.1 == p.1,
            Outcome::Fail(e) => r matches Err(f) && f == e,
            Outcome::Abort => false,
        },
{
    let m = sub_markets;
    if ctx.liquidati_lending_account.last_health_update_clock_slot != ctx.clock_slot {
        return Err(LendingError::StaleTokenReserveOrLendingUser);
    }
    let token_id = ctx.token_reserve.token_id;
    check_temp_price_account(ctx.program_id, &ctx.temp_price_account, ctx.signer)?;
    let x = check_two_markets(&ctx, m, args)?;
    let price = read_price(&ctx.temp_price_account, ctx.clock_slot, token_id)?;
    same_token_terms(ctx, m, args, account_name, look_up_table_address, x, price)
}

/// A liquidation within one token reserve once the price is read (see
/// `spec_same_token_terms`).
fn same_token_terms(
    ctx: LiquidateAccountSameToken,
    m: SubMarketPair,
    args: LiquidationArgs,
    account_name: Option<String>,
    look_up_table_address: Option<Pubkey>,
    x: TwoMarketAccounts,
    price: u128,
) -> (r: Result<(LiquidateAccountSameToken, Effects), LendingError>)
    requires
        !(spec_same_token_terms(ctx, m, args, account_name, look_up_table_address, x, price) is Abort),
    ensures
        match spec_same_token_terms(ctx, m, args, account_name, look_up_table_address, x, price) {
            Outcome::Done(p) => r matches Ok(q) && same_lst(q.0, p.0) && q.1 == p.1,
            Outcome::Fail(e) => r matches Err(f) && f == e,
            Outcome::Abort => false,
        },
{
    let conversion = token_conversion_number(ctx.token_reserve.token_decimal_amount);
    proof { crate::oracle::lemma_pow10_positive(ctx.token_reserve.token_decimal_amount as nat); }
    let terms = liquidation_terms(ctx.liquidati_lending_account.total_deposited_usd_value,
        ctx.liquidati_lending_account.total_borrowed_usd_value, x.ti_rep_tab.account.borrowed_amount, price,
        conversion, args.paying_off_insolvent_account, args.repay_max, args.amount_to_repay)?;
    same_token_settle(ctx, m, args, account_name, look_up_table_address, x, price, conversion, terms)
}

} // verus!
