use vstd::prelude::*;
use crate::structs::{Pubkey, TokenReserve, SubMarket, LendingUserAccount, LendingUserTabAccount,
    LendingUserMonthlyStatementAccount};
use crate::steps::Outcome;
use crate::rates::{spec_update_rates, spec_utilization_rate, spec_supply_apy};
use crate::lending::{
    DepositTokens, WithdrawTokens, BorrowTokens, RepayTokens, usd_value, min_int, spec_deposit_book,
    spec_withdraw_limit, spec_withdraw_book, spec_borrow_limit, spec_borrow_book, spec_repay_tokens,
    spec_borrow_tokens, spec_borrow_prelude, spec_deposit_tokens, spec_requested_repayment, spec_withdraw_tokens,
    spec_withdraw_prelude,
};
use crate::user_interest::{earned_interest, owed_interest};
use crate::steps::{spec_step_index, spec_step_earned, spec_step_refresh};
use crate::steps::{spec_step_load_prices, spec_step_settle_tab};
use crate::oracle::{spec_price_lookup, pow10};
use crate::steps::PriceAccounts;
use crate::liquidation::{spec_liquidation_terms, spec_seized, spec_book_repayment, spec_book_seizure};
use crate::fees::{ClaimSubMarketFees, spec_credit_fees};
use crate::liquidation::TwoMarketAccounts;
use crate::cross_liquidation::{LiquidateAccount, spec_cross_book, spec_cross_settle, spec_cross_liquidator_setup,
    spec_liquidate_account, spec_check_cross_markets, spec_check_liquidati, spec_check_validator,
    spec_cross_priced};
use crate::liquidation::{spec_read_price, LiquidateAccountSameSubMarket, spec_liquidate_account_same_sub_market,
    spec_check_temp, spec_check_stats, spec_check_sub_market, spec_check_tab, spec_check_statement,
    LiquidateAccountSameToken, spec_liquidate_account_same_token, spec_check_two_markets,
    spec_same_token_liquidator_setup};
use crate::steps::{spec_ensure_user_account, spec_ensure_tab, spec_ensure_statement};
use crate::liquidation::{SubMarketPair, LiquidationArgs};
use crate::structs::Pubkey as Key;
use crate::structs::OraclePriceValidator;

verus! {

/// With nothing borrowed, a reserve's utilization and supply rate are zero and its
/// borrow rate is its base rate.
pub proof fn law_idle_reserve_rates(tr: TokenReserve)
    requires
        tr.borrowed_amount == 0,
    ensures
        spec_update_rates(tr).utilization_rate == 0,
        spec_update_rates(tr).supply_apy == 0,
        spec_update_rates(tr).borrow_apy == tr.base_borrow_apy,
{
}

/// While no more is borrowed than deposited, lenders are never paid a higher rate than
/// borrowers pay: the supply rate is at most the borrow rate.
pub proof fn law_supply_rate_within_borrow_rate(tr: TokenReserve)
    requires
        tr.borrowed_amount <= tr.deposited_amount,
        tr.deposited_amount > 0,
    ensures
        spec_update_rates(tr).supply_apy <= spec_update_rates(tr).borrow_apy,
{
    let t = spec_update_rates(tr);
    if tr.borrowed_amount != 0 {
        let b = tr.borrowed_amount as int;
        let d = tr.deposited_amount as int;
        assert(b * 10_000 <= d * 10_000) by (nonlinear_arith)
            requires
                b <= d,
        ;
        assert((b * 10_000) / d <= 10_000) by (nonlinear_arith)
            requires
                b * 10_000 <= d * 10_000,
                d > 0,
        ;
        let u = spec_utilization_rate(tr.borrowed_amount, tr.deposited_amount);
        assert(u as int == (b * 10_000) / d);
        let apy = t.borrow_apy;
        assert((apy * u) / 10_000 <= apy as int) by (nonlinear_arith)
            requires
                0 <= u <= 10_000,
                0 <= apy,
        ;
        assert(spec_supply_apy(apy, u) as int == (apy * u) / 10_000);
    }
}

/// A borrow never takes the user's debt value beyond 70% of their collateral value:
/// the new debt value is the old plus the value of what is lent, and it stays within
/// that bound. A plain borrow lends the amount asked; a maximal one at most what the
/// reserve holds.
pub proof fn law_borrow_within_loan_to_value(
    total_deposited: u128,
    total_borrowed: u128,
    amount: u64,
    borrow_max: bool,
    price: u128,
    conversion: nat,
    available: u64,
)
    requires
        conversion > 0,
        spec_borrow_limit(total_deposited, total_borrowed, amount, borrow_max, price, conversion, available) is Done,
    ensures
        ({
            let (lent, new_total) = spec_borrow_limit(total_deposited, total_borrowed, amount, borrow_max, price,
                conversion, available)->Done_0;
            &&& new_total as int == total_borrowed + usd_value(lent as int, price as int, conversion as int)
            &&& new_total <= (total_deposited * 70) / 100
            &&& !borrow_max ==> lent == amount
            &&& borrow_max ==> lent <= available
        }),
{
    if borrow_max {
        let max_debt = (total_deposited * 70) / 100;
        if max_debt > total_borrowed {
            let headroom = max_debt - total_borrowed;
            let m = min_int((headroom * conversion) / price as int, available as int);
            assert(0 <= m <= available);
        }
    }
}

/// A withdrawal by a user with debt keeps the debt within 70% of the remaining
/// collateral: a plain withdrawal is allowed only when the collateral left after it
/// covers the debt that way; a maximal one takes no more collateral value than the
/// surplus over the debt's cover, and no more than the tab holds or the reserve has.
pub proof fn law_withdraw_within_loan_to_value(
    ua: LendingUserAccount,
    deposited: u64,
    available: u64,
    amount: u64,
    withdraw_max: bool,
    price: u128,
    conversion: nat,
)
    requires
        conversion > 0,
        spec_withdraw_limit(ua, deposited, available, amount, withdraw_max, price, conversion) is Done,
    ensures
        ({
            let w = spec_withdraw_limit(ua, deposited, available, amount, withdraw_max, price, conversion)->Done_0;
            let value = usd_value(w as int, price as int, conversion as int);
            &&& !withdraw_max ==> w == amount && ((ua.total_deposited_usd_value - value) * 70) / 100
                >= ua.total_borrowed_usd_value
            &&& withdraw_max ==> {
                &&& w <= deposited
                &&& w <= available
                &&& value <= ua.total_deposited_usd_value - (ua.total_borrowed_usd_value * 100) / 70
            }
        }),
{
    if withdraw_max {
        let td = ua.total_deposited_usd_value as int;
        let tb = ua.total_borrowed_usd_value as int;
        let mu = td - (tb * 100) / 70;
        let p = price as int;
        let c = conversion as int;
        let q = (mu * c) / p;
        let w = spec_withdraw_limit(ua, deposited, available, amount, withdraw_max, price, conversion)->Done_0;
        assert(w as int <= q);
        assert((w * p) / c <= mu) by (nonlinear_arith)
            requires
                0 <= w <= q,
                q == (mu * c) / p,
                mu > 0,
                p > 0,
                c > 0,
        {
            assert(q * p <= mu * c);
            assert(w * p <= q * p);
            assert(w * p <= mu * c);
        }
    }
}

/// A liquidation may only repay part of a debt when the account is liquidatable (its
/// debt value at least 80% of its collateral value, or at least all of it when paying
/// off an insolvent account); it repays at least a tenth of the tab's debt, never more
/// than the debt, and, unless paying off an insolvent account, at most half of it.
pub proof fn law_liquidation_terms_bounded(
    total_deposited: u128,
    total_borrowed: u128,
    debt: u64,
    price: u128,
    conversion: nat,
    paying_off_insolvent_account: bool,
    repay_max: bool,
    amount_to_repay: u64,
)
    requires
        spec_liquidation_terms(total_deposited, total_borrowed, debt, price, conversion,
            paying_off_insolvent_account, repay_max, amount_to_repay) is Done,
    ensures
        ({
            let (repaid, _, _) = spec_liquidation_terms(total_deposited, total_borrowed, debt, price, conversion,
                paying_off_insolvent_account, repay_max, amount_to_repay)->Done_0;
            &&& repaid <= debt
            &&& repaid >= (debt * 10) / 100
            &&& paying_off_insolvent_account ==> total_borrowed >= total_deposited
            &&& !paying_off_insolvent_account ==> total_borrowed >= (total_deposited * 80) / 100
                && repaid <= (debt * 50) / 100
        }),
{
}

/// A liquidation never seizes more collateral than the liquidated tab holds: the bonus
/// and the fee together are at most its deposit.
pub proof fn law_seizure_within_deposit(repayment_value: u128, conversion: nat, price: u128, deposited: u64)
    requires
        spec_seized(repayment_value, conversion, price, deposited) is Done,
    ensures
        ({
            let (bonus, fee) = spec_seized(repayment_value, conversion, price, deposited)->Done_0;
            bonus + fee <= deposited
        }),
{
}

/// A deposit books exactly the amount that is moved into the reserve, on the reserve,
/// the sub market and the tab.
pub proof fn law_deposit_books_amount(
    c: DepositTokens,
    ua: LendingUserAccount,
    s: (TokenReserve, SubMarket, LendingUserTabAccount, LendingUserMonthlyStatementAccount),
    amount: u64,
)
    requires
        spec_deposit_book(c, ua, s, amount) is Done,
    ensures
        ({
            let (d, e) = spec_deposit_book(c, ua, s, amount)->Done_0;
            &&& e.into_reserve == Some(amount) && e.out_of_reserve is None
            &&& d.token_reserve.deposited_amount == s.0.deposited_amount + amount
            &&& d.sub_market.deposited_amount == s.1.deposited_amount + amount
            &&& d.lending_user_tab_account.deposited_amount == s.2.deposited_amount + amount
        }),
{
}

/// A withdrawal moves out of the reserve exactly what it takes from the tab, the sub
/// market and the reserve, and never more than the tab holds or the reserve has; for a
/// user with debt, the value of what it takes comes off the user's total deposited
/// value.
pub proof fn law_withdraw_books_amount(
    c: WithdrawTokens,
    s: (TokenReserve, SubMarket, LendingUserTabAccount, LendingUserMonthlyStatementAccount),
    wa: u64,
    taken: Option<u128>,
)
    requires
        spec_withdraw_book(c, s, wa, taken) is Done,
        taken matches Some(v) ==> v <= c.lending_user_account.total_deposited_usd_value,
    ensures
        ({
            let (d, e) = spec_withdraw_book(c, s, wa, taken)->Done_0;
            &&& taken matches Some(v) ==> d.lending_user_account.total_deposited_usd_value
                == c.lending_user_account.total_deposited_usd_value - v
            &&& taken is None ==> d.lending_user_account == c.lending_user_account
            &&& e.out_of_reserve == Some(wa) && e.into_reserve is None
            &&& wa <= s.2.deposited_amount && wa <= c.token_reserve_ata_amount
            &&& d.token_reserve.deposited_amount == s.0.deposited_amount - wa
            &&& d.sub_market.deposited_amount == s.1.deposited_amount - wa
            &&& d.lending_user_tab_account.deposited_amount == s.2.deposited_amount - wa
        }),
{
}

/// A borrow lends out of the reserve exactly what it adds to the debt of the tab, the
/// sub market and the reserve, and never more than the reserve has.
pub proof fn law_borrow_books_amount(
    c: BorrowTokens,
    pa: PriceAccounts,
    s: (TokenReserve, LendingUserAccount, LendingUserTabAccount, LendingUserMonthlyStatementAccount),
    ba: u64,
    new_total_borrowed: u128,
)
    requires
        spec_borrow_book(c, pa, s, ba, new_total_borrowed) is Done,
    ensures
        ({
            let (d, e) = spec_borrow_book(c, pa, s, ba, new_total_borrowed)->Done_0;
            &&& e.out_of_reserve == Some(ba) && e.into_reserve is None
            &&& ba <= c.token_reserve_ata_amount
            &&& d.token_reserve.borrowed_amount == s.0.borrowed_amount + ba
            &&& d.sub_market.borrowed_amount == c.sub_market.borrowed_amount + ba
            &&& d.lending_user_tab_account.borrowed_amount == s.2.borrowed_amount + ba
            &&& d.lending_user_account.total_borrowed_usd_value == new_total_borrowed
        }),
{
}

/// A repayment never repays more than the tab owes, and takes into the reserve exactly
/// what it removes from the debt of the tab, the sub market and the reserve.
pub proof fn law_repay_within_debt(c: RepayTokens, pa: PriceAccounts, amount: u64, pay_off_loan: bool,
    pay_10_percent: bool)
    requires
        spec_repay_tokens(c, pa, amount, pay_off_loan, pay_10_percent) is Done,
    ensures
        ({
            let (d, e) = spec_repay_tokens(c, pa, amount, pay_off_loan, pay_10_percent)->Done_0;
            &&& e.into_reserve is Some && e.out_of_reserve is None
            &&& e.into_reserve->0 <= c.lending_user_tab_account.borrowed_amount
            &&& d.token_reserve.borrowed_amount == c.token_reserve.borrowed_amount - e.into_reserve->0
            &&& d.sub_market.borrowed_amount == c.sub_market.borrowed_amount - e.into_reserve->0
            &&& d.lending_user_tab_account.borrowed_amount == c.lending_user_tab_account.borrowed_amount
                - e.into_reserve->0
        }),
{
}

/// Claimed fees are credited in full and only once: the reserve's and the sub
/// market's deposits grow by the fees, the claimer's tab by the fees taken as 64 bits,
/// and the fees claimed are cleared.
pub proof fn law_claimed_fees_credited(
    c: ClaimSubMarketFees,
    ua: LendingUserAccount,
    s: (TokenReserve, SubMarket, LendingUserTabAccount, LendingUserMonthlyStatementAccount),
    fees: u128,
    liquidation_fees: bool,
)
    requires
        spec_credit_fees(c, ua, s, fees, liquidation_fees) is Done,
    ensures
        ({
            let d = spec_credit_fees(c, ua, s, fees, liquidation_fees)->Done_0;
            &&& d.token_reserve.deposited_amount == s.0.deposited_amount + fees
            &&& d.sub_market.deposited_amount == s.1.deposited_amount + fees
            &&& d.lending_user_tab_account.deposited_amount == s.2.deposited_amount + fees as u64
            &&& liquidation_fees ==> d.token_reserve.uncollected_liquidation_fees_amount == 0
            &&& !liquidation_fees ==> d.sub_market.uncollected_sub_market_fees_amount == 0
        }),
{
}

/// After a successful borrow the user's debt value is within 70% of their collateral
/// value, which the borrow does not change.
pub proof fn law_borrow_tokens_within_loan_to_value(
    c: BorrowTokens,
    pa: PriceAccounts,
    sub_market_index: u16,
    user_account_index: u8,
    amount: u64,
    borrow_max: bool,
)
    requires
        spec_borrow_tokens(c, pa, sub_market_index, user_account_index, amount, borrow_max) is Done,
    ensures
        ({
            let (d, _) = spec_borrow_tokens(c, pa, sub_market_index, user_account_index, amount, borrow_max)->Done_0;
            &&& d.lending_user_account.total_deposited_usd_value == c.lending_user_account.total_deposited_usd_value
            &&& d.lending_user_account.total_borrowed_usd_value
                <= (c.lending_user_account.total_deposited_usd_value * 70) / 100
        }),
{
    let s = spec_borrow_prelude(c, sub_market_index, user_account_index)->Done_0;
    let temp = spec_step_load_prices(c.program_id, c.signer, pa.temp_price_account)->Done_0;
    let price = spec_price_lookup(temp.data@, s.0.token_id)->0;
    crate::oracle::lemma_pow10_positive(s.0.token_decimal_amount as nat);
    law_borrow_within_loan_to_value(s.1.total_deposited_usd_value, s.1.total_borrowed_usd_value, amount, borrow_max,
        price, pow10(s.0.token_decimal_amount as nat), c.token_reserve_ata_amount);
}

/// A deposit is taken only when the reserve's deposits as handed in, before any interest
/// is credited in this call, plus the amount stay within the reserve's global limit;
/// interest credited afterwards (to the depositor or others) may take the deposits
/// past the limit.
pub proof fn law_deposit_within_global_limit(
    c: DepositTokens,
    sub_market_index: u16,
    user_account_index: u8,
    amount: u64,
    account_name: Option<String>,
    look_up_table_address: Option<Pubkey>,
)
    requires
        spec_deposit_tokens(c, sub_market_index, user_account_index, amount, account_name, look_up_table_address)
            is Done,
    ensures
        c.token_reserve.deposited_amount + amount <= c.token_reserve.global_limit,
{
}

/// What a liquidation repays comes off the liquidated tab's debt and the debt of its
/// sub market and reserve, and counts as repaid by the liquidator.
pub proof fn law_liquidation_repayment_booked(
    tr: TokenReserve,
    sm: SubMarket,
    liquidati_tab: LendingUserTabAccount,
    liquidator_tab: LendingUserTabAccount,
    liquidati_st: LendingUserMonthlyStatementAccount,
    liquidator_st: LendingUserMonthlyStatementAccount,
    ra: u64,
)
    requires
        spec_book_repayment(tr, sm, liquidati_tab, liquidator_tab, liquidati_st, liquidator_st, ra) is Done,
    ensures
        ({
            let b = spec_book_repayment(tr, sm, liquidati_tab, liquidator_tab, liquidati_st, liquidator_st, ra)->Done_0;
            &&& b.0.borrowed_amount == tr.borrowed_amount - ra
            &&& b.1.borrowed_amount == sm.borrowed_amount - ra
            &&& b.2.borrowed_amount == liquidati_tab.borrowed_amount - ra
            &&& b.3.repaid_debt_amount == liquidator_tab.repaid_debt_amount + ra
        }),
{
}

/// The collateral a liquidation seizes is split between the liquidator and the
/// protocol: the liquidated tab loses the bonus and the fee; the fee stays in the
/// reserve as uncollected liquidation fees and leaves the depositors' total; the bonus
/// goes to the liquidator's wallet (leaving the reserve) or to the liquidator's tab.
pub proof fn law_liquidation_seizure_split(
    tr: TokenReserve,
    sm: SubMarket,
    liquidati_tab: LendingUserTabAccount,
    liquidator_tab: LendingUserTabAccount,
    liquidati_st: LendingUserMonthlyStatementAccount,
    liquidator_st: LendingUserMonthlyStatementAccount,
    bonus: u64,
    fee: u64,
    send_reward_to_wallet: bool,
)
    requires
        spec_book_seizure(tr, sm, liquidati_tab, liquidator_tab, liquidati_st, liquidator_st, bonus, fee,
            send_reward_to_wallet) is Done,
    ensures
        ({
            let d = spec_book_seizure(tr, sm, liquidati_tab, liquidator_tab, liquidati_st, liquidator_st, bonus, fee,
                send_reward_to_wallet)->Done_0;
            let paid_out: int = if send_reward_to_wallet { bonus as int } else { 0 };
            &&& d.2.deposited_amount == liquidati_tab.deposited_amount - bonus - fee
            &&& d.0.uncollected_liquidation_fees_amount == tr.uncollected_liquidation_fees_amount + fee
            &&& d.0.deposited_amount == tr.deposited_amount - fee - paid_out
            &&& d.1.deposited_amount == sm.deposited_amount - fee - paid_out
            &&& d.3.deposited_amount == liquidator_tab.deposited_amount + (bonus - paid_out)
        }),
{
}

/// When a liquidation between two token reserves books its repayment and seizure, each
/// side's reserve, sub market and pair of tabs (the liquidated user's and the
/// liquidator's) change by the same amount: on the repayment side the debt falls by
/// what is repaid; on the liquidation side the deposits fall by the fee and, when the
/// bonus is paid to the liquidator's wallet, by the bonus (a bonus kept in the tabs only
/// moves from the liquidated user's tab to the liquidator's).
pub proof fn law_cross_liquidation_booking_balanced(
    c: LiquidateAccount,
    x: TwoMarketAccounts,
    validator: OraclePriceValidator,
    rep_sm: SubMarket,
    liq_sm: SubMarket,
    ra: u64,
    bonus: u64,
    fee: u64,
    send_reward_to_wallet: bool,
)
    requires
        spec_cross_book(c, x, validator, rep_sm, liq_sm, ra, bonus, fee, send_reward_to_wallet) is Done,
    ensures
        ({
            let (d, e) = spec_cross_book(c, x, validator, rep_sm, liq_sm, ra, bonus, fee,
                send_reward_to_wallet)->Done_0;
            let paid_out: int = if send_reward_to_wallet { bonus as int } else { 0 };
            &&& e.into_reserve == Some(ra)
            &&& e.out_of_reserve == if send_reward_to_wallet { Some(bonus) } else { None }
            &&& d.repayment_token_reserve.borrowed_amount == c.repayment_token_reserve.borrowed_amount - ra
            &&& d.repayment_sub_market matches Some(k) && k.account.borrowed_amount == rep_sm.borrowed_amount - ra
            &&& d.liquidati_repayment_tab_account matches Some(t) && t.account.borrowed_amount
                + d.liquidator_repayment_tab_account.borrowed_amount == x.ti_rep_tab.account.borrowed_amount
                + c.liquidator_repayment_tab_account.borrowed_amount - ra
            &&& d.liquidation_token_reserve.deposited_amount == c.liquidation_token_reserve.deposited_amount - fee
                - paid_out
            &&& d.liquidation_sub_market matches Some(k) && k.account.deposited_amount == liq_sm.deposited_amount
                - fee - paid_out
            &&& d.liquidati_liquidation_tab_account matches Some(t) && t.account.deposited_amount
                + d.liquidator_liquidation_tab_account.deposited_amount == x.ti_liq_tab.account.deposited_amount
                + c.liquidator_liquidation_tab_account.deposited_amount - fee - paid_out
        }),
{
}

/// Settling a tab's interest credits the same amounts to its reserve, its sub market and
/// the tab: the earned interest (after fees) to their deposits and the accrued interest
/// to their debts, as long as the amount fits in the tab's 64 bits.
pub proof fn law_settlement_credits_evenly(
    tr: TokenReserve,
    sm: SubMarket,
    tab: LendingUserTabAccount,
    stmt: LendingUserMonthlyStatementAccount,
)
    requires
        spec_step_settle_tab(tr, sm, tab, stmt) is Done,
    ensures
        ({
            let s = spec_step_settle_tab(tr, sm, tab, stmt)->Done_0;
            let earned = s.0.deposited_amount - tr.deposited_amount;
            let accrued = s.0.borrowed_amount - tr.borrowed_amount;
            &&& earned >= 0 && accrued >= 0
            &&& s.1.deposited_amount - sm.deposited_amount == earned
            &&& s.1.borrowed_amount - sm.borrowed_amount == accrued
            &&& earned <= u64::MAX ==> s.2.deposited_amount - tab.deposited_amount == earned
            &&& accrued <= u64::MAX ==> s.2.borrowed_amount - tab.borrowed_amount == accrued
        }),
{
}

/// The changes a liquidation between two token reserves makes on each side, once
/// priced: see `law_cross_liquidation_balanced`.
proof fn lemma_cross_settle_balanced(
    c: LiquidateAccount,
    m: SubMarketPair,
    a: LiquidationArgs,
    account_name: Option<String>,
    look_up_table_address: Option<Key>,
    validator: OraclePriceValidator,
    liquidation_price: Option<u128>,
    x: TwoMarketAccounts,
    repayment_value: u128,
    ra: u64,
)
    requires
        spec_cross_settle(c, m, a, account_name, look_up_table_address, validator, liquidation_price, x,
            repayment_value, ra) is Done,
    ensures
        ({
            let d = spec_cross_settle(c, m, a, account_name, look_up_table_address, validator, liquidation_price, x,
                repayment_value, ra)->Done_0.0;
            balanced_sides(c, x, d)
        }),
{
    let u = spec_cross_liquidator_setup(c, m, a, account_name, look_up_table_address)->Done_0;
    let s1 = spec_step_settle_tab(c.repayment_token_reserve, x.rep_sm.account, u.1, u.3)->Done_0;
    let s2 = spec_step_settle_tab(c.liquidation_token_reserve, x.liq_sm.account, u.2, u.4)->Done_0;
    law_settlement_credits_evenly(c.repayment_token_reserve, x.rep_sm.account, u.1, u.3);
    law_settlement_credits_evenly(c.liquidation_token_reserve, x.liq_sm.account, u.2, u.4);
    let liq_tr = c.liquidation_token_reserve;
    let z = spec_seized(repayment_value, pow10(liq_tr.token_decimal_amount as nat), liquidation_price->0,
        x.ti_liq_tab.account.deposited_amount)->Done_0;
    let c1 = LiquidateAccount {
        repayment_token_reserve: s1.0,
        liquidation_token_reserve: s2.0,
        liquidator_repayment_tab_account: s1.2,
        liquidator_liquidation_tab_account: s2.2,
        liquidator_repayment_monthly_statement_account: s1.3,
        liquidator_liquidation_monthly_statement_account: s2.3,
        ..c
    };
    law_cross_liquidation_booking_balanced(c1, x, validator, s1.1, s2.1, ra, z.0, z.1, a.send_reward_to_wallet);
}

/// After a liquidation between two token reserves, `d`, compared with the accounts it
/// was handed, `c` (whose liquidated user's accounts are `x`), changes each side's
/// reserve, sub market and pair of tabs alike: the repayment side's debts and the
/// liquidation side's deposits; the pair of tabs only when the interest settled on the
/// liquidator's tab, with what the liquidated tab gives up, fits in 64 bits.
pub open spec fn balanced_sides(c: LiquidateAccount, x: TwoMarketAccounts, d: LiquidateAccount) -> bool {
    &&& d.repayment_sub_market is Some
    &&& d.liquidation_sub_market is Some
    &&& d.liquidati_repayment_tab_account is Some
    &&& d.liquidati_liquidation_tab_account is Some
    &&& {
        let rep_reserve = d.repayment_token_reserve.borrowed_amount - c.repayment_token_reserve.borrowed_amount;
        let rep_market = d.repayment_sub_market->Some_0.account.borrowed_amount - x.rep_sm.account.borrowed_amount;
        let rep_given = x.ti_rep_tab.account.borrowed_amount
            - d.liquidati_repayment_tab_account->Some_0.account.borrowed_amount;
        let rep_tabs = d.liquidati_repayment_tab_account->Some_0.account.borrowed_amount
            + d.liquidator_repayment_tab_account.borrowed_amount - x.ti_rep_tab.account.borrowed_amount
            - c.liquidator_repayment_tab_account.borrowed_amount;
        let liq_reserve = d.liquidation_token_reserve.deposited_amount - c.liquidation_token_reserve.deposited_amount;
        let liq_market = d.liquidation_sub_market->Some_0.account.deposited_amount
            - x.liq_sm.account.deposited_amount;
        let liq_given = x.ti_liq_tab.account.deposited_amount
            - d.liquidati_liquidation_tab_account->Some_0.account.deposited_amount;
        let liq_tabs = d.liquidati_liquidation_tab_account->Some_0.account.deposited_amount
            + d.liquidator_liquidation_tab_account.deposited_amount - x.ti_liq_tab.account.deposited_amount
            - c.liquidator_liquidation_tab_account.deposited_amount;
        &&& rep_reserve == rep_market
        &&& liq_reserve == liq_market
        &&& rep_reserve + rep_given <= u64::MAX ==> rep_tabs == rep_reserve
        &&& liq_reserve + liq_given <= u64::MAX ==> liq_tabs == liq_reserve
    }
}

/// A liquidation between two token reserves changes each side alike: the repayment
/// reserve's debt, its sub market's debt and the debts of the liquidated user's and the
/// liquidator's repayment tabs change by the same amount (the liquidator's accrued
/// interest less what is repaid), and so do the liquidation reserve's deposits, its sub
/// market's and the two liquidation tabs' (the liquidator's earned interest less the fee
/// and less the bonus when it is paid to the wallet), the tabs as long as the amounts
/// fit in their 64 bits. The liquidated user's accounts compared are the ones handed in.
pub proof fn law_cross_liquidation_balanced(
    c: LiquidateAccount,
    m: SubMarketPair,
    a: LiquidationArgs,
    account_name: Option<String>,
    look_up_table_address: Option<Key>,
)
    requires
        spec_liquidate_account(c, m, a, account_name, look_up_table_address) is Done,
    ensures
        ({
            let d = spec_liquidate_account(c, m, a, account_name, look_up_table_address)->Done_0.0;
            &&& spec_check_cross_markets(c, m, a) is Done
            &&& {
                let x = spec_check_cross_markets(c, m, a)->Done_0;
                &&& c.repayment_sub_market == Some(x.rep_sm)
                &&& c.liquidation_sub_market == Some(x.liq_sm)
                &&& c.liquidati_repayment_tab_account == Some(x.ti_rep_tab)
                &&& c.liquidati_liquidation_tab_account == Some(x.ti_liq_tab)
                &&& balanced_sides(c, x, d)
            }
        }),
{
    let pid = c.program_id;
    let ti = spec_check_liquidati(pid, c.liquidati_lending_account, c.liquidati_account_owner,
        a.liquidati_account_index)->Done_0;
    let v = spec_check_validator(pid, c.price_validator)->Done_0;
    let x = spec_check_cross_markets(c, m, a)->Done_0;
    let temp = c.temp_price_account->Some_0;
    let rep_tr = c.repayment_token_reserve;
    let price = spec_read_price(temp.account, c.clock_slot, rep_tr.token_id)->Ok_0;
    let t = spec_liquidation_terms(ti.account.total_deposited_usd_value, ti.account.total_borrowed_usd_value,
        x.ti_rep_tab.account.borrowed_amount, price, pow10(rep_tr.token_decimal_amount as nat),
        a.paying_off_insolvent_account, a.repay_max, a.amount_to_repay)->Done_0;
    lemma_cross_settle_balanced(c, m, a, account_name, look_up_table_address, v.account,
        spec_price_lookup(temp.account.data@, c.liquidation_token_reserve.token_id), x, t.1, t.0);
}

/// A repayment of `r` tokens (what goes into the reserve) at the token's price `p` takes
/// `r` off the tab's debt and `floor(r * p / 10^decimals)` off the user's total borrowed
/// value, which does not fall below zero.
pub proof fn law_repay_lowers_debt_value(
    c: RepayTokens,
    pa: PriceAccounts,
    amount: u64,
    pay_off_loan: bool,
    pay_10_percent: bool,
)
    requires
        spec_repay_tokens(c, pa, amount, pay_off_loan, pay_10_percent) is Done,
    ensures
        ({
            let (d, e) = spec_repay_tokens(c, pa, amount, pay_off_loan, pay_10_percent)->Done_0;
            &&& e.into_reserve is Some
            &&& pa.temp_price_account is Some
            &&& spec_price_lookup(pa.temp_price_account->Some_0.account.data@, c.token_reserve.token_id) is Some
            &&& {
                let r = e.into_reserve->Some_0;
                let p = spec_price_lookup(pa.temp_price_account->Some_0.account.data@, c.token_reserve.token_id)->Some_0;
                let value = (r * p) / pow10(c.token_reserve.token_decimal_amount as nat) as int;
                let old_value = c.lending_user_account.total_borrowed_usd_value as int;
                &&& d.lending_user_tab_account.borrowed_amount == c.lending_user_tab_account.borrowed_amount - r
                &&& d.lending_user_account.total_borrowed_usd_value == if old_value >= value {
                    old_value - value
                } else {
                    0
                }
            }
        }),
{
    let tab = c.lending_user_tab_account;
    let r = spec_requested_repayment(tab.borrowed_amount, amount, pay_off_loan, pay_10_percent);
    let temp = pa.temp_price_account->Some_0.account;
    let p = spec_price_lookup(temp.data@, c.token_reserve.token_id)->Some_0;
    let conversion = pow10(c.token_reserve.token_decimal_amount as nat) as int;
    crate::oracle::lemma_pow10_positive(c.token_reserve.token_decimal_amount as nat);
    assert(0 <= r <= tab.borrowed_amount);
    assert(usd_value(r, p as int, conversion) >= 0) by (nonlinear_arith)
        requires
            r >= 0,
            p >= 0,
            conversion > 0,
    {
    }
}

/// A maximal borrow lends the largest amount whose value keeps the debt within 70% of the
/// collateral: `min(available, floor((70% of collateral value - debt value) * 10^decimals
/// / price))`, the values being those of the user's health and the price the token's.
pub proof fn law_max_borrow_amount(
    c: BorrowTokens,
    pa: PriceAccounts,
    sub_market_index: u16,
    user_account_index: u8,
    amount: u64,
)
    requires
        spec_borrow_tokens(c, pa, sub_market_index, user_account_index, amount, true) is Done,
    ensures
        ({
            let (d, e) = spec_borrow_tokens(c, pa, sub_market_index, user_account_index, amount, true)->Done_0;
            let ua = c.lending_user_account;
            &&& pa.temp_price_account is Some
            &&& spec_price_lookup(pa.temp_price_account->Some_0.account.data@, c.token_reserve.token_id) is Some
            &&& {
                let p = spec_price_lookup(pa.temp_price_account->Some_0.account.data@, c.token_reserve.token_id)->Some_0;
                let headroom = (ua.total_deposited_usd_value * 70) / 100 - ua.total_borrowed_usd_value;
                let safe = (headroom * pow10(c.token_reserve.token_decimal_amount as nat)) / p as int;
                let lent = if safe <= c.token_reserve_ata_amount { safe } else { c.token_reserve_ata_amount as int };
                &&& headroom > 0
                &&& p > 0
                &&& e.out_of_reserve == Some(lent as u64)
                &&& lent >= 0
            }
        }),
{
    let s = spec_borrow_prelude(c, sub_market_index, user_account_index)->Done_0;
    crate::oracle::lemma_pow10_positive(s.0.token_decimal_amount as nat);
}

/// What a liquidation between two token reserves seizes, once priced: the liquidated
/// tab gives up the bonus and the fee that `spec_seized` sets, the fee stays in the
/// liquidation reserve, and the bonus goes to the wallet or stays in the tabs; the
/// repayment tab's debt falls by what is repaid.
proof fn lemma_cross_settle_seizure(
    c: LiquidateAccount,
    m: SubMarketPair,
    a: LiquidationArgs,
    account_name: Option<String>,
    look_up_table_address: Option<Key>,
    validator: OraclePriceValidator,
    liquidation_price: Option<u128>,
    x: TwoMarketAccounts,
    repayment_value: u128,
    ra: u64,
)
    requires
        spec_cross_settle(c, m, a, account_name, look_up_table_address, validator, liquidation_price, x,
            repayment_value, ra) is Done,
    ensures
        ({
            let (d, e) = spec_cross_settle(c, m, a, account_name, look_up_table_address, validator,
                liquidation_price, x, repayment_value, ra)->Done_0;
            let z = spec_seized(repayment_value, pow10(c.liquidation_token_reserve.token_decimal_amount as nat),
                liquidation_price->0, x.ti_liq_tab.account.deposited_amount)->Done_0;
            &&& liquidation_price is Some
            &&& spec_seized(repayment_value, pow10(c.liquidation_token_reserve.token_decimal_amount as nat),
                liquidation_price->0, x.ti_liq_tab.account.deposited_amount) is Done
            &&& d.liquidati_liquidation_tab_account matches Some(t)
                && t.account.deposited_amount == x.ti_liq_tab.account.deposited_amount - z.0 - z.1
            &&& d.liquidati_repayment_tab_account matches Some(t)
                && t.account.borrowed_amount == x.ti_rep_tab.account.borrowed_amount - ra
            &&& d.liquidation_token_reserve.uncollected_liquidation_fees_amount
                == c.liquidation_token_reserve.uncollected_liquidation_fees_amount + z.1
            &&& e.out_of_reserve == if a.send_reward_to_wallet { Some(z.0) } else { None }
        }),
{
    let u = spec_cross_liquidator_setup(c, m, a, account_name, look_up_table_address)->Done_0;
    let s1 = spec_step_settle_tab(c.repayment_token_reserve, x.rep_sm.account, u.1, u.3)->Done_0;
    let s2 = spec_step_settle_tab(c.liquidation_token_reserve, x.liq_sm.account, u.2, u.4)->Done_0;
    let liq_tr = c.liquidation_token_reserve;
    let z = spec_seized(repayment_value, pow10(liq_tr.token_decimal_amount as nat), liquidation_price->0,
        x.ti_liq_tab.account.deposited_amount)->Done_0;
    let c1 = LiquidateAccount {
        repayment_token_reserve: s1.0,
        liquidation_token_reserve: s2.0,
        liquidator_repayment_tab_account: s1.2,
        liquidator_liquidation_tab_account: s2.2,
        liquidator_repayment_monthly_statement_account: s1.3,
        liquidator_liquidation_monthly_statement_account: s2.3,
        ..c
    };
    assert(s2.0.uncollected_liquidation_fees_amount == liq_tr.uncollected_liquidation_fees_amount);
    law_liquidation_seizure_split(c1.liquidation_token_reserve, s2.1, x.ti_liq_tab.account,
        c1.liquidator_liquidation_tab_account, x.ti_liq_st.account, c1.liquidator_liquidation_monthly_statement_account,
        z.0, z.1, a.send_reward_to_wallet);
    law_liquidation_repayment_booked(c1.repayment_token_reserve, s1.1, x.ti_rep_tab.account,
        c1.liquidator_repayment_tab_account, x.ti_rep_st.account, c1.liquidator_repayment_monthly_statement_account,
        ra);
}

/// A liquidation between two token reserves seizes collateral worth what is repaid,
/// priced in the liquidation token: with `r` the repayment tab's debt repaid, `P_r` and
/// `P_l` the two tokens' prices and `d_r`, `d_l` their decimals, the repayment's value
/// is `v = floor(r * P_r / 10^d_r)` and the collateral it buys `s = floor(v * 10^d_l /
/// P_l)`. When the liquidated tab holds at least `floor(s * 107 / 100) + floor(s / 100)`,
/// it gives up exactly that: the bonus `floor(s * 107 / 100)`, which goes to the
/// liquidator's wallet or tab, and the fee `floor(s / 100)`, which the liquidation
/// reserve keeps as uncollected liquidation fees.
pub proof fn law_cross_liquidation_seizure(
    c: LiquidateAccount,
    m: SubMarketPair,
    a: LiquidationArgs,
    account_name: Option<String>,
    look_up_table_address: Option<Key>,
)
    requires
        spec_liquidate_account(c, m, a, account_name, look_up_table_address) is Done,
    ensures
        ({
            let (d, e) = spec_liquidate_account(c, m, a, account_name, look_up_table_address)->Done_0;
            &&& c.temp_price_account is Some
            &&& c.liquidati_repayment_tab_account is Some
            &&& c.liquidati_liquidation_tab_account is Some
            &&& d.liquidati_repayment_tab_account is Some
            &&& d.liquidati_liquidation_tab_account is Some
            &&& {
                let prices = c.temp_price_account->Some_0.account.data@;
                let rep_tr = c.repayment_token_reserve;
                let liq_tr = c.liquidation_token_reserve;
                let ti_rep = c.liquidati_repayment_tab_account->Some_0.account;
                let ti_liq = c.liquidati_liquidation_tab_account->Some_0.account;
                let repaid = ti_rep.borrowed_amount - d.liquidati_repayment_tab_account->Some_0.account.borrowed_amount;
                let rep_price = spec_price_lookup(prices, rep_tr.token_id)->Some_0;
                let liq_price = spec_price_lookup(prices, liq_tr.token_id)->Some_0;
                let value = (repaid * rep_price) / pow10(rep_tr.token_decimal_amount as nat) as int;
                let seized = (value * pow10(liq_tr.token_decimal_amount as nat)) / liq_price as int;
                let bonus = (seized * 107) / 100;
                let fee = seized / 100;
                &&& spec_price_lookup(prices, rep_tr.token_id) is Some
                &&& spec_price_lookup(prices, liq_tr.token_id) is Some
                &&& repaid >= 0
                &&& ti_liq.deposited_amount >= bonus + fee ==> {
                    &&& ti_liq.deposited_amount - d.liquidati_liquidation_tab_account->Some_0.account.deposited_amount
                        == bonus + fee
                    &&& d.liquidation_token_reserve.uncollected_liquidation_fees_amount
                        == liq_tr.uncollected_liquidation_fees_amount + fee
                    &&& e.out_of_reserve == if a.send_reward_to_wallet { Some(bonus as u64) } else { None }
                }
            }
        }),
{
    let pid = c.program_id;
    let ti = spec_check_liquidati(pid, c.liquidati_lending_account, c.liquidati_account_owner,
        a.liquidati_account_index)->Done_0;
    let v = spec_check_validator(pid, c.price_validator)->Done_0;
    let x = spec_check_cross_markets(c, m, a)->Done_0;
    let temp = c.temp_price_account->Some_0;
    let rep_tr = c.repayment_token_reserve;
    let liq_tr = c.liquidation_token_reserve;
    let price = spec_read_price(temp.account, c.clock_slot, rep_tr.token_id)->Ok_0;
    let conv_r = pow10(rep_tr.token_decimal_amount as nat);
    let t = spec_liquidation_terms(ti.account.total_deposited_usd_value, ti.account.total_borrowed_usd_value,
        x.ti_rep_tab.account.borrowed_amount, price, conv_r, a.paying_off_insolvent_account, a.repay_max,
        a.amount_to_repay)->Done_0;
    let lp = spec_price_lookup(temp.account.data@, liq_tr.token_id);
    lemma_cross_settle_seizure(c, m, a, account_name, look_up_table_address, v.account, lp, x, t.1, t.0);
    crate::oracle::lemma_pow10_positive(rep_tr.token_decimal_amount as nat);
    crate::oracle::lemma_pow10_positive(liq_tr.token_decimal_amount as nat);
    let ra = t.0 as int;
    assert(usd_value(ra, price as int, conv_r as int) >= 0) by (nonlinear_arith)
        requires
            ra >= 0,
            price >= 0,
            conv_r > 0,
    {
    }
    let rv = t.1 as int;
    assert(rv == (ra * price) / conv_r as int);
    let conv_l = pow10(liq_tr.token_decimal_amount as nat) as int;
    let lpv = lp->Some_0 as int;
    let sv = (rv * conv_l) / lpv;
    assert(sv >= 0) by (nonlinear_arith)
        requires
            rv >= 0,
            conv_l > 0,
            lpv > 0,
            sv == (rv * conv_l) / lpv,
    {
    }
    let dep = x.ti_liq_tab.account.deposited_amount as int;
    if dep >= (sv * 107) / 100 + sv / 100 {
        assert(sv <= (sv * 107) / 100);
        assert(sv <= u64::MAX);
        assert((((rv * conv_l) / lpv) as u64) as int == sv);
    }
}

/// A maximal withdrawal by a user without debt takes the tab's deposit with its earned
/// interest credited first: the amount withdrawn is the smaller of the reserve's
/// liquidity and the deposit plus the user's share of the interest credited; with no
/// fees charged that share is all the interest earned from the tab's supply index to the
/// reserve's (as long as it fits in the tab's 64 bits).
pub proof fn law_max_withdraw_without_debt(
    c: WithdrawTokens,
    pa: PriceAccounts,
    sub_market_index: u16,
    user_account_index: u8,
    amount: u64,
)
    requires
        c.lending_user_account.total_borrowed_usd_value == 0,
        spec_withdraw_tokens(c, pa, sub_market_index, user_account_index, amount, true) is Done,
    ensures
        ({
            let (d, e) = spec_withdraw_tokens(c, pa, sub_market_index, user_account_index, amount, true)->Done_0;
            let tab = c.lending_user_tab_account;
            let available = c.token_reserve_ata_amount as int;
            let credited = d.lending_user_tab_account.interest_earned_amount - tab.interest_earned_amount;
            let total = tab.deposited_amount + credited;
            let earned: int = if tab.deposited_amount == 0 { 0 } else {
                earned_interest(tab.deposited_amount, d.token_reserve.supply_interest_change_index,
                    tab.supply_interest_change_index)
            };
            let fee_free = c.sub_market.fee_on_interest_earned_rate == 0
                && c.token_reserve.solvency_insurance_fee_rate == 0;
            &&& e.out_of_reserve == Some((if available <= total { available } else { total }) as u64)
            &&& fee_free && earned <= u64::MAX ==> credited == earned
        }),
{
    let tab = c.lending_user_tab_account;
    let tr1 = spec_step_index(c.token_reserve, c.time_stamp, None)->Done_0;
    if tab.deposited_amount != 0 && c.sub_market.fee_on_interest_earned_rate == 0
        && c.token_reserve.solvency_insurance_fee_rate == 0 {
        assert(tr1.solvency_insurance_fee_rate == c.token_reserve.solvency_insurance_fee_rate);
        crate::user_interest::law_earned_interest_without_fees(tr1, c.sub_market, tab);
    }
    let s = spec_withdraw_prelude(c, sub_market_index, user_account_index)->Done_0;
    assert(s.2.deposited_amount == tab.deposited_amount + (s.2.interest_earned_amount - tab.interest_earned_amount));
}

/// A borrow of `b` tokens (what leaves the reserve; the amount asked unless the borrow is
/// maximal) at the token's price `p` adds `b` to the tab's debt and `floor(b * p /
/// 10^decimals)` to the user's total borrowed value, which stays within 70% of the
/// collateral value.
pub proof fn law_borrow_adds_debt_value(
    c: BorrowTokens,
    pa: PriceAccounts,
    sub_market_index: u16,
    user_account_index: u8,
    amount: u64,
    borrow_max: bool,
)
    requires
        spec_borrow_tokens(c, pa, sub_market_index, user_account_index, amount, borrow_max) is Done,
    ensures
        ({
            let (d, e) = spec_borrow_tokens(c, pa, sub_market_index, user_account_index, amount, borrow_max)->Done_0;
            let ua = c.lending_user_account;
            &&& e.out_of_reserve is Some
            &&& pa.temp_price_account is Some
            &&& spec_price_lookup(pa.temp_price_account->Some_0.account.data@, c.token_reserve.token_id) is Some
            &&& {
                let b = e.out_of_reserve->Some_0;
                let p = spec_price_lookup(pa.temp_price_account->Some_0.account.data@, c.token_reserve.token_id)->Some_0;
                let value = (b * p) / pow10(c.token_reserve.token_decimal_amount as nat) as int;
                &&& !borrow_max ==> b == amount
                &&& d.lending_user_tab_account.borrowed_amount == c.lending_user_tab_account.borrowed_amount + b
                &&& d.lending_user_account.total_borrowed_usd_value == ua.total_borrowed_usd_value + value
                &&& d.lending_user_account.total_borrowed_usd_value <= (ua.total_deposited_usd_value * 70) / 100
                &&& d.lending_user_account.total_deposited_usd_value == ua.total_deposited_usd_value
            }
        }),
{
    let s = spec_borrow_prelude(c, sub_market_index, user_account_index)->Done_0;
    crate::oracle::lemma_pow10_positive(s.0.token_decimal_amount as nat);
    law_borrow_tokens_within_loan_to_value(c, pa, sub_market_index, user_account_index, amount, borrow_max);
}

/// A withdrawal of `w` tokens by a user with debt, at the token's price `p`, is allowed
/// only while the debt stays within 70% of the collateral left: a plain withdrawal
/// takes the amount asked when `floor((D - floor(w * p / 10^decimals)) * 70 / 100)` is at
/// least the debt value, with `D` the collateral value; a maximal one takes
/// `min(liquidity, deposit, floor((D - floor(debt value * 100 / 70)) * 10^decimals /
/// p))`. Either way the collateral value falls by `floor(w * p / 10^decimals)`.
pub proof fn law_withdraw_with_debt(
    c: WithdrawTokens,
    pa: PriceAccounts,
    sub_market_index: u16,
    user_account_index: u8,
    amount: u64,
    withdraw_max: bool,
)
    requires
        c.lending_user_account.total_borrowed_usd_value > 0,
        spec_withdraw_tokens(c, pa, sub_market_index, user_account_index, amount, withdraw_max) is Done,
    ensures
        ({
            let (d, e) = spec_withdraw_tokens(c, pa, sub_market_index, user_account_index, amount, withdraw_max)->Done_0;
            let ua = c.lending_user_account;
            let td = ua.total_deposited_usd_value as int;
            let tb = ua.total_borrowed_usd_value as int;
            &&& e.out_of_reserve is Some
            &&& pa.temp_price_account is Some
            &&& spec_price_lookup(pa.temp_price_account->Some_0.account.data@, c.token_reserve.token_id) is Some
            &&& {
                let w = e.out_of_reserve->Some_0;
                let p = spec_price_lookup(pa.temp_price_account->Some_0.account.data@, c.token_reserve.token_id)->Some_0;
                let conversion = pow10(c.token_reserve.token_decimal_amount as nat) as int;
                let value = (w * p) / conversion;
                let cover = td - (tb * 100) / 70;
                let safe = (cover * conversion) / p as int;
                let dep = c.lending_user_tab_account.deposited_amount as int;
                let avail = c.token_reserve_ata_amount as int;
                &&& value <= td
                &&& d.lending_user_account.total_deposited_usd_value == td - value
                &&& d.lending_user_tab_account.deposited_amount == dep - w
                &&& !withdraw_max ==> w == amount && ((td - value) * 70) / 100 >= tb
                &&& withdraw_max ==> cover > 0 && p > 0 && w == min_int(min_int(safe, dep), avail)
            }
        }),
{
    let s = spec_withdraw_prelude(c, sub_market_index, user_account_index)->Done_0;
    let temp = spec_step_load_prices(c.program_id, c.signer, pa.temp_price_account)->Done_0;
    let price = spec_price_lookup(temp.data@, s.0.token_id)->Some_0;
    let conversion = pow10(s.0.token_decimal_amount as nat);
    crate::oracle::lemma_pow10_positive(s.0.token_decimal_amount as nat);
    let requested = if withdraw_max { min_int(c.token_reserve_ata_amount as int, s.2.deposited_amount as int) as u64 }
        else { amount };
    law_withdraw_within_loan_to_value(c.lending_user_account, s.2.deposited_amount, c.token_reserve_ata_amount,
        requested, withdraw_max, price, conversion);
}

/// What a collateral worth `value` buys at `price`, and the bonus and fee a liquidation
/// takes of it, when the liquidated tab holds `deposited`: the seizure is
/// `s = floor(value * conversion / price)`, and when the tab holds at least
/// `floor(s * 107 / 100) + floor(s / 100)` the bonus and fee are exactly those.
proof fn lemma_seized_exact(value: u128, conversion: nat, price: u128, deposited: u64)
    requires
        spec_seized(value, conversion, price, deposited) is Done,
        conversion > 0,
    ensures
        ({
            let z = spec_seized(value, conversion, price, deposited)->Done_0;
            let sv = (value * conversion) / price as int;
            &&& price > 0
            &&& sv >= 0
            &&& deposited >= (sv * 107) / 100 + sv / 100 ==> z.0 == (sv * 107) / 100 && z.1 == sv / 100
        }),
{
    let v = value as int;
    let cv = conversion as int;
    let pv = price as int;
    let sv = (v * cv) / pv;
    assert(sv >= 0) by (nonlinear_arith)
        requires
            v >= 0,
            cv > 0,
            pv > 0,
            sv == (v * cv) / pv,
    {
    }
    if deposited >= (sv * 107) / 100 + sv / 100 {
        assert(sv <= (sv * 107) / 100);
        assert(sv <= u64::MAX);
        assert((sv as u64) as int == sv);
    }
}

/// A liquidation within one sub market seizes collateral worth what is repaid: with `r`
/// repaid at the token's price `P` and `d` decimals, the repayment's value is `v =
/// floor(r * P / 10^d)` and the collateral it buys `s = floor(v * 10^d / P)`. When the
/// liquidated tab holds at least `floor(s * 107 / 100) + floor(s / 100)`, it gives up
/// exactly that (the bonus `floor(s * 107 / 100)`, to the liquidator's wallet or tab, and
/// the fee `floor(s / 100)`, which the reserve keeps as uncollected liquidation fees) and
/// its debt falls by `r`.
pub proof fn law_same_sub_market_liquidation_seizure(
    c: LiquidateAccountSameSubMarket,
    sub_market_index: u16,
    a: LiquidationArgs,
    account_name: Option<String>,
    look_up_table_address: Option<Key>,
)
    requires
        spec_liquidate_account_same_sub_market(c, sub_market_index, a, account_name, look_up_table_address) is Done,
    ensures
        ({
            let (d, e) = spec_liquidate_account_same_sub_market(c, sub_market_index, a, account_name,
                look_up_table_address)->Done_0;
            &&& e.into_reserve is Some
            &&& c.temp_price_account is Some
            &&& c.liquidati_tab_account is Some
            &&& d.liquidati_tab_account is Some
            &&& spec_price_lookup(c.temp_price_account->Some_0.account.data@, c.token_reserve.token_id) is Some
            &&& {
                let r = e.into_reserve->Some_0;
                let price = spec_price_lookup(c.temp_price_account->Some_0.account.data@,
                    c.token_reserve.token_id)->Some_0;
                let conversion = pow10(c.token_reserve.token_decimal_amount as nat) as int;
                let value = (r * price) / conversion;
                let seized = (value * conversion) / price as int;
                let bonus = (seized * 107) / 100;
                let fee = seized / 100;
                let ti = c.liquidati_tab_account->Some_0.account;
                let to = d.liquidati_tab_account->Some_0.account;
                &&& to.borrowed_amount == ti.borrowed_amount - r
                &&& ti.deposited_amount >= bonus + fee ==> {
                    &&& ti.deposited_amount - to.deposited_amount == bonus + fee
                    &&& d.token_reserve.uncollected_liquidation_fees_amount
                        == c.token_reserve.uncollected_liquidation_fees_amount + fee
                    &&& e.out_of_reserve == if a.send_reward_to_wallet { Some(bonus as u64) } else { None }
                }
            }
        }),
{
    let pid = c.program_id;
    let tr = c.token_reserve;
    let temp = spec_check_temp(pid, c.temp_price_account, c.signer)->Done_0;
    let stats = spec_check_stats(pid, c.lending_stats)->Done_0;
    let sm = spec_check_sub_market(pid, c.sub_market, tr.token_id, c.sub_market_owner, sub_market_index)->Done_0;
    let ti_tab = spec_check_tab(pid, c.liquidati_tab_account, tr.token_id, c.sub_market_owner, sub_market_index,
        c.liquidati_account_owner, a.liquidati_account_index)->Done_0;
    let ti_st = spec_check_statement(pid, c.liquidati_monthly_statement_account, c.lending_protocol, tr.token_id,
        c.sub_market_owner, sub_market_index, c.liquidati_account_owner, a.liquidati_account_index)->Done_0;
    let price = spec_read_price(temp.account, c.clock_slot, tr.token_id)->Ok_0;
    let conversion = pow10(tr.token_decimal_amount as nat);
    crate::oracle::lemma_pow10_positive(tr.token_decimal_amount as nat);
    let ua = c.liquidati_lending_account;
    let t = spec_liquidation_terms(ua.total_deposited_usd_value, ua.total_borrowed_usd_value,
        ti_tab.account.borrowed_amount, price, conversion, a.paying_off_insolvent_account, a.repay_max,
        a.amount_to_repay)->Done_0;
    let ua1 = spec_ensure_user_account(c.liquidator_lending_account, account_name, "Generic Liquidator"@,
        look_up_table_address, c.liquidator_lending_account_bump, c.signer, a.liquidator_account_index)->Done_0;
    let p = spec_ensure_tab(ua1, c.liquidator_tab_account, c.lending_protocol, c.liquidator_tab_account_bump,
        tr.token_id, c.sub_market_owner, sub_market_index, c.signer, a.liquidator_account_index)->Done_0;
    let to_st1 = spec_ensure_statement(c.liquidator_monthly_statement_account, p.1, c.lending_protocol,
        c.liquidator_monthly_statement_account_bump, tr.token_id, c.sub_market_owner, sub_market_index, c.signer,
        a.liquidator_account_index);
    let s1 = spec_step_settle_tab(tr, sm.account, p.1, to_st1)->Done_0;
    let z = spec_seized(t.1, conversion, price, ti_tab.account.deposited_amount)->Done_0;
    let b = spec_book_repayment(s1.0, s1.1, ti_tab.account, s1.2, ti_st.account, s1.3, t.0)->Done_0;
    law_liquidation_repayment_booked(s1.0, s1.1, ti_tab.account, s1.2, ti_st.account, s1.3, t.0);
    law_liquidation_seizure_split(b.0, b.1, b.2, b.3, b.4, b.5, z.0, z.1, a.send_reward_to_wallet);
    lemma_seized_exact(t.1, conversion, price, ti_tab.account.deposited_amount);
    let ra = t.0 as int;
    assert(usd_value(ra, price as int, conversion as int) >= 0) by (nonlinear_arith)
        requires
            ra >= 0,
            price >= 0,
            conversion > 0,
    {
    }
    assert(s1.0.uncollected_liquidation_fees_amount == tr.uncollected_liquidation_fees_amount);
}

/// The booking of a liquidation across two sub markets of one token, once priced: the
/// liquidated repayment tab's debt falls by what is repaid; the liquidated liquidation
/// tab gives up the bonus and fee that `spec_seized` sets; the fee stays in the reserve.
#[verifier::rlimit(40)]
proof fn lemma_same_token_settle_seizure(
    c: LiquidateAccountSameToken,
    m: SubMarketPair,
    a: LiquidationArgs,
    account_name: Option<String>,
    look_up_table_address: Option<Key>,
    x: TwoMarketAccounts,
    price: u128,
    conversion: nat,
    terms: (u64, u128, u128),
)
    requires
        crate::liquidation::spec_same_token_settle(c, m, a, account_name, look_up_table_address, x, price,
            conversion, terms) is Done,
    ensures
        ({
            let (d, e) = crate::liquidation::spec_same_token_settle(c, m, a, account_name, look_up_table_address, x,
                price, conversion, terms)->Done_0;
            let z = spec_seized(terms.1, conversion, price, x.ti_liq_tab.account.deposited_amount)->Done_0;
            &&& spec_seized(terms.1, conversion, price, x.ti_liq_tab.account.deposited_amount) is Done
            &&& e.into_reserve == Some(terms.0)
            &&& d.liquidati_repayment_tab_account matches Some(t)
                && t.account.borrowed_amount == x.ti_rep_tab.account.borrowed_amount - terms.0
            &&& d.liquidati_liquidation_tab_account matches Some(t)
                && t.account.deposited_amount == x.ti_liq_tab.account.deposited_amount - z.0 - z.1
            &&& d.token_reserve.uncollected_liquidation_fees_amount
                == c.token_reserve.uncollected_liquidation_fees_amount + z.1
            &&& e.out_of_reserve == if a.send_reward_to_wallet { Some(z.0) } else { None }
        }),
{
    let u = spec_same_token_liquidator_setup(c, m, a, account_name, look_up_table_address)->Done_0;
    let s1 = spec_step_settle_tab(c.token_reserve, x.rep_sm.account, u.1, u.3)->Done_0;
    let s2 = spec_step_settle_tab(s1.0, x.liq_sm.account, u.2, u.4)->Done_0;
    let z = spec_seized(terms.1, conversion, price, x.ti_liq_tab.account.deposited_amount)->Done_0;
    let b = spec_book_repayment(s2.0, s1.1, x.ti_rep_tab.account, s1.2, x.ti_rep_st.account, s1.3, terms.0)->Done_0;
    law_liquidation_repayment_booked(s2.0, s1.1, x.ti_rep_tab.account, s1.2, x.ti_rep_st.account, s1.3, terms.0);
    law_liquidation_seizure_split(b.0, s2.1, x.ti_liq_tab.account, s2.2, x.ti_liq_st.account, s2.3,
        z.0, z.1, a.send_reward_to_wallet);
    assert(s1.0.uncollected_liquidation_fees_amount == c.token_reserve.uncollected_liquidation_fees_amount);
    assert(s2.0.uncollected_liquidation_fees_amount == c.token_reserve.uncollected_liquidation_fees_amount);
}

/// A liquidation across two sub markets of one token seizes collateral worth what is
/// repaid: with `r` repaid at the token's price `P` and `d` decimals, the repayment's
/// value is `v = floor(r * P / 10^d)` and the collateral it buys `s = floor(v * 10^d /
/// P)`. The liquidated repayment tab's debt falls by `r`; when the liquidated
/// liquidation tab holds at least `floor(s * 107 / 100) + floor(s / 100)`, it gives up
/// exactly that (the bonus `floor(s * 107 / 100)`, to the liquidator's wallet or tab, and
/// the fee `floor(s / 100)`, which the reserve keeps as uncollected liquidation fees).
pub proof fn law_same_token_liquidation_seizure(
    c: LiquidateAccountSameToken,
    m: SubMarketPair,
    a: LiquidationArgs,
    account_name: Option<String>,
    look_up_table_address: Option<Key>,
)
    requires
        spec_liquidate_account_same_token(c, m, a, account_name, look_up_table_address) is Done,
    ensures
        ({
            let (d, e) = spec_liquidate_account_same_token(c, m, a, account_name, look_up_table_address)->Done_0;
            &&& e.into_reserve is Some
            &&& c.temp_price_account is Some
            &&& c.liquidati_repayment_tab_account is Some
            &&& c.liquidati_liquidation_tab_account is Some
            &&& d.liquidati_repayment_tab_account is Some
            &&& d.liquidati_liquidation_tab_account is Some
            &&& spec_price_lookup(c.temp_price_account->Some_0.account.data@, c.token_reserve.token_id) is Some
            &&& {
                let r = e.into_reserve->Some_0;
                let price = spec_price_lookup(c.temp_price_account->Some_0.account.data@,
                    c.token_reserve.token_id)->Some_0;
                let conversion = pow10(c.token_reserve.token_decimal_amount as nat) as int;
                let value = (r * price) / conversion;
                let seized = (value * conversion) / price as int;
                let bonus = (seized * 107) / 100;
                let fee = seized / 100;
                let ti_rep = c.liquidati_repayment_tab_account->Some_0.account;
                let ti_liq = c.liquidati_liquidation_tab_account->Some_0.account;
                &&& d.liquidati_repayment_tab_account->Some_0.account.borrowed_amount == ti_rep.borrowed_amount - r
                &&& ti_liq.deposited_amount >= bonus + fee ==> {
                    &&& ti_liq.deposited_amount - d.liquidati_liquidation_tab_account->Some_0.account.deposited_amount
                        == bonus + fee
                    &&& d.token_reserve.uncollected_liquidation_fees_amount
                        == c.token_reserve.uncollected_liquidation_fees_amount + fee
                    &&& e.out_of_reserve == if a.send_reward_to_wallet { Some(bonus as u64) } else { None }
                }
            }
        }),
{
    let pid = c.program_id;
    let tr = c.token_reserve;
    let temp = spec_check_temp(pid, c.temp_price_account, c.signer)->Done_0;
    let x = spec_check_two_markets(c, m, a)->Done_0;
    let price = spec_read_price(temp.account, c.clock_slot, tr.token_id)->Ok_0;
    let conversion = pow10(tr.token_decimal_amount as nat);
    crate::oracle::lemma_pow10_positive(tr.token_decimal_amount as nat);
    let ua = c.liquidati_lending_account;
    let t = spec_liquidation_terms(ua.total_deposited_usd_value, ua.total_borrowed_usd_value,
        x.ti_rep_tab.account.borrowed_amount, price, conversion, a.paying_off_insolvent_account, a.repay_max,
        a.amount_to_repay)->Done_0;
    lemma_same_token_settle_seizure(c, m, a, account_name, look_up_table_address, x, price, conversion, t);
    lemma_seized_exact(t.1, conversion, price, x.ti_liq_tab.account.deposited_amount);
    let ra = t.0 as int;
    assert(usd_value(ra, price as int, conversion as int) >= 0) by (nonlinear_arith)
        requires
            ra >= 0,
            price >= 0,
            conversion > 0,
    {
    }
}

/// Settling a tab's interest in closed form: its debt grows by the interest owed from its
/// borrow index to the reserve's and, when no fees are charged, its deposit by the
/// interest earned from its supply index to the reserve's (each as long as it fits in
/// the tab's 64 bits); the reserve keeps its indexes.
pub proof fn law_settlement_closed(
    tr: TokenReserve,
    sm: SubMarket,
    tab: LendingUserTabAccount,
    stmt: LendingUserMonthlyStatementAccount,
)
    requires
        spec_step_settle_tab(tr, sm, tab, stmt) is Done,
    ensures
        ({
            let s = spec_step_settle_tab(tr, sm, tab, stmt)->Done_0;
            let owed: int = if tab.borrowed_amount == 0 { 0 } else {
                owed_interest(tab.borrowed_amount, tr.borrow_interest_change_index, tab.borrow_interest_change_index)
            };
            let earned: int = if tab.deposited_amount == 0 { 0 } else {
                earned_interest(tab.deposited_amount, tr.supply_interest_change_index,
                    tab.supply_interest_change_index)
            };
            &&& owed >= 0
            &&& owed <= u64::MAX ==> s.2.borrowed_amount == tab.borrowed_amount + owed
            &&& sm.fee_on_interest_earned_rate == 0 && tr.solvency_insurance_fee_rate == 0 && earned <= u64::MAX
                ==> s.2.deposited_amount == tab.deposited_amount + earned
            &&& s.0.supply_interest_change_index == tr.supply_interest_change_index
            &&& s.0.borrow_interest_change_index == tr.borrow_interest_change_index
        }),
{
    let e = spec_step_earned(tr, sm, tab, stmt)->Done_0;
    if tab.borrowed_amount != 0 {
        crate::user_interest::law_accrued_interest_closed(e.0, e.2);
    }
    if tab.deposited_amount != 0 && sm.fee_on_interest_earned_rate == 0 && tr.solvency_insurance_fee_rate == 0 {
        crate::user_interest::law_earned_interest_without_fees(tr, sm, tab);
    }
}

/// A deposit settles the tab's interest before adding to it: the tab's deposit becomes
/// its old deposit, plus the interest it earned (when no fees are charged and it fits in
/// 64 bits) from its supply index to the reserve's, plus the amount, which goes into the
/// reserve; its debt grows by the interest owed (when it fits in 64 bits).
pub proof fn law_deposit_settles_then_adds(
    c: DepositTokens,
    sub_market_index: u16,
    user_account_index: u8,
    amount: u64,
    account_name: Option<String>,
    look_up_table_address: Option<Key>,
)
    requires
        spec_deposit_tokens(c, sub_market_index, user_account_index, amount, account_name, look_up_table_address)
            is Done,
    ensures
        ({
            let (d, e) = spec_deposit_tokens(c, sub_market_index, user_account_index, amount, account_name,
                look_up_table_address)->Done_0;
            let tab = c.lending_user_tab_account;
            let tr = d.token_reserve;
            let owed: int = if tab.borrowed_amount == 0 { 0 } else {
                owed_interest(tab.borrowed_amount, tr.borrow_interest_change_index, tab.borrow_interest_change_index)
            };
            let earned: int = if tab.deposited_amount == 0 { 0 } else {
                earned_interest(tab.deposited_amount, tr.supply_interest_change_index,
                    tab.supply_interest_change_index)
            };
            let fee_free = c.sub_market.fee_on_interest_earned_rate == 0
                && c.token_reserve.solvency_insurance_fee_rate == 0;
            &&& e.into_reserve == Some(amount)
            &&& fee_free && earned <= u64::MAX ==> d.lending_user_tab_account.deposited_amount
                == tab.deposited_amount + earned + amount
            &&& owed <= u64::MAX ==> d.lending_user_tab_account.borrowed_amount == tab.borrowed_amount + owed
        }),
{
    let tr0 = c.token_reserve;
    let ua1 = spec_ensure_user_account(c.lending_user_account, account_name, "Generic Depositer"@,
        look_up_table_address, c.lending_user_account_bump, c.signer, user_account_index)->Done_0;
    let p = spec_ensure_tab(ua1, c.lending_user_tab_account, c.lending_protocol, c.lending_user_tab_account_bump,
        tr0.token_id, c.sub_market_owner, sub_market_index, c.signer, user_account_index)->Done_0;
    let st1 = spec_ensure_statement(c.lending_user_monthly_statement_account, p.1, c.lending_protocol,
        c.lending_user_monthly_statement_account_bump, tr0.token_id, c.sub_market_owner, sub_market_index, c.signer,
        user_account_index);
    let tr1 = spec_step_index(tr0, c.time_stamp, None)->Done_0;
    assert(tr1.solvency_insurance_fee_rate == tr0.solvency_insurance_fee_rate);
    law_settlement_closed(tr1, c.sub_market, p.1, st1);
}

} // verus!
