use vstd::prelude::*;
use crate::errors::LendingError;
use crate::fixed_point::{
    Fixed, fixed_raw, fp_scale, u256_max, spec_fp_mul, spec_fp_div, spec_fp_sub, spec_fp_floor,
    spec_fp_ceil, spec_fp_from_bps, fp_from_bps, fp_from_int, fp_from_scaled_u128, fp_mul, fp_div, fp_sub, fp_floor, fp_ceil,
    fp_to_u128,
};
use crate::structs::{TokenReserve, SubMarket, LendingUserTabAccount, LendingUserMonthlyStatementAccount};

verus! {

/// `amount * reserve_index / user_index - amount` in fixed point, the two indexes
/// taken in at their full 128 bit width as the fixed point values they store: the
/// growth of a balance since the user's index was recorded.
pub open spec fn spec_balance_growth(amount: u64, reserve_index: u128, user_index: u128) -> Option<nat> {
    let a = amount as nat * fp_scale();
    match spec_fp_mul(a, reserve_index as nat) {
        None => None,
        Some(p) => match spec_fp_div(p, user_index as nat) {
            None => None,
            Some(n) => spec_fp_sub(n, a),
        },
    }
}

/// The fee rates applied to earned interest: the sub market rate is lowered so that
/// the two together do not exceed 100%.
pub open spec fn spec_fee_rates(sub_market_rate: u16, solvency_rate: u16) -> (u16, u16) {
    if sub_market_rate + solvency_rate <= 10_000 {
        (sub_market_rate, solvency_rate)
    } else {
        ((10_000 - solvency_rate) as u16, solvency_rate)
    }
}

/// A fee on a raw interest amount, rounded down to a whole number (raw value).
pub open spec fn spec_fee_floor(gross: nat, rate: u16) -> Option<nat> {
    match spec_fp_mul(gross, spec_fp_from_bps(rate as nat)) {
        None => None,
        Some(m) => Some(spec_fp_floor(m)),
    }
}

/// Splits raw gross interest into (user interest, sub market fee, solvency fee),
/// whole tokens, before any dust is swept.
pub open spec fn spec_interest_split(gross: nat, sub_rate: u16, solvency_rate: u16) -> Option<(nat, nat, nat)> {
    match spec_fee_floor(gross, sub_rate) {
        None => None,
        Some(sf) => match spec_fee_floor(gross, solvency_rate) {
            None => None,
            Some(vf) => if sf / fp_scale() > u128::MAX || vf / fp_scale() > u128::MAX {
                None
            } else {
                match spec_fp_sub(gross, sf) {
                    None => None,
                    Some(a1) => match spec_fp_sub(a1, vf) {
                        None => None,
                        Some(a2) => if a2 / fp_scale() > u128::MAX {
                            None
                        } else {
                            Some((a2 / fp_scale(), sf / fp_scale(), vf / fp_scale()))
                        },
                    },
                }
            },
        },
    }
}

/// The split of a tab's interest with its dust swept into the solvency fee when the
/// two fee rates add up to 100%.
pub open spec fn spec_earned_split(tr: TokenReserve, sm: SubMarket, tab: LendingUserTabAccount) -> Option<(nat, nat, nat)> {
    let (sub_rate, solvency_rate) = spec_fee_rates(sm.fee_on_interest_earned_rate, tr.solvency_insurance_fee_rate);
    match spec_balance_growth(tab.deposited_amount, tr.supply_interest_change_index, tab.supply_interest_change_index) {
        None => None,
        Some(gross) => match spec_interest_split(gross, sub_rate, solvency_rate) {
            None => None,
            Some(s) => if sub_rate + solvency_rate == 10_000 && s.0 > 0 {
                Some((0nat, s.1, s.2 + s.0))
            } else {
                Some(s)
            },
        },
    }
}

/// The inputs on which settling earned interest does not panic.
pub open spec fn earned_computable(
    tr: TokenReserve,
    sm: SubMarket,
    tab: LendingUserTabAccount,
    stmt: LendingUserMonthlyStatementAccount,
) -> bool {
    tab.deposited_amount != 0 ==> {
        &&& sm.fee_on_interest_earned_rate + tr.solvency_insurance_fee_rate <= u16::MAX
        &&& sm.fee_on_interest_earned_rate + tr.solvency_insurance_fee_rate > 10_000 ==> tr.solvency_insurance_fee_rate <= 10_000
        &&& {
            let (sub_rate, solvency_rate) = spec_fee_rates(sm.fee_on_interest_earned_rate, tr.solvency_insurance_fee_rate);
            spec_balance_growth(tab.deposited_amount, tr.supply_interest_change_index, tab.supply_interest_change_index) matches Some(gross)
                ==> (spec_interest_split(gross, sub_rate, solvency_rate) matches Some(s) ==> (
                    sub_rate + solvency_rate == 10_000 && s.0 > 0 ==> s.2 + s.0 <= u128::MAX))
        }
        &&& spec_earned_split(tr, sm, tab) matches Some(s) ==> {
            let (ui, sf, vf) = s;
            &&& tr.deposited_amount + ui <= u128::MAX
            &&& tr.interest_earned_amount + ui <= u128::MAX
            &&& tr.uncollected_solvency_insurance_fees_amount + vf <= u128::MAX
            &&& sm.deposited_amount + ui <= u128::MAX
            &&& sm.interest_earned_amount + ui <= u128::MAX
            &&& sm.sub_market_fees_generated_amount + sf <= u128::MAX
            &&& sm.uncollected_sub_market_fees_amount + sf <= u128::MAX
            &&& sm.solvency_insurance_fees_generated_amount + vf <= u128::MAX
            &&& tab.deposited_amount + (ui as u64) <= u64::MAX
            &&& tab.interest_earned_amount + (ui as u64) <= u64::MAX
            &&& tab.fees_generated_amount + (sf as u64) + (vf as u64) <= u64::MAX
            &&& stmt.monthly_interest_earned_amount + (ui as u64) <= u64::MAX
            &&& stmt.fees_generated_amount + (sf as u64) + (vf as u64) <= u64::MAX
        }
    }
}

/// The four accounts after the interest (user interest `ui`, sub market fee `sf`,
/// solvency fee `vf`) is credited.
pub open spec fn spec_credit_earned(
    tr: TokenReserve,
    sm: SubMarket,
    tab: LendingUserTabAccount,
    stmt: LendingUserMonthlyStatementAccount,
    ui: nat,
    sf: nat,
    vf: nat,
) -> (TokenReserve, SubMarket, LendingUserTabAccount, LendingUserMonthlyStatementAccount) {
    let tab2 = LendingUserTabAccount {
        deposited_amount: (tab.deposited_amount + (ui as u64)) as u64,
        interest_earned_amount: (tab.interest_earned_amount + (ui as u64)) as u64,
        fees_generated_amount: (tab.fees_generated_amount + (sf as u64) + (vf as u64)) as u64,
        ..tab
    };
    (
        TokenReserve {
            deposited_amount: (tr.deposited_amount + ui) as u128,
            interest_earned_amount: (tr.interest_earned_amount + ui) as u128,
            uncollected_solvency_insurance_fees_amount: (tr.uncollected_solvency_insurance_fees_amount + vf) as u128,
            ..tr
        },
        SubMarket {
            deposited_amount: (sm.deposited_amount + ui) as u128,
            interest_earned_amount: (sm.interest_earned_amount + ui) as u128,
            sub_market_fees_generated_amount: (sm.sub_market_fees_generated_amount + sf) as u128,
            uncollected_sub_market_fees_amount: (sm.uncollected_sub_market_fees_amount + sf) as u128,
            solvency_insurance_fees_generated_amount: (sm.solvency_insurance_fees_generated_amount + vf) as u128,
            ..sm
        },
        tab2,
        LendingUserMonthlyStatementAccount {
            snap_shot_balance_amount: tab2.deposited_amount,
            monthly_interest_earned_amount: (stmt.monthly_interest_earned_amount + (ui as u64)) as u64,
            fees_generated_amount: (stmt.fees_generated_amount + (sf as u64) + (vf as u64)) as u64,
            ..stmt
        },
    )
}

/// The four accounts after settling a tab's earned interest (unchanged when the tab
/// holds no deposit).
pub open spec fn spec_settle_earned(
    tr: TokenReserve,
    sm: SubMarket,
    tab: LendingUserTabAccount,
    stmt: LendingUserMonthlyStatementAccount,
) -> (TokenReserve, SubMarket, LendingUserTabAccount, LendingUserMonthlyStatementAccount) {
    if tab.deposited_amount == 0 {
        (tr, sm, tab, stmt)
    } else {
        let s = spec_earned_split(tr, sm, tab)->0;
        spec_credit_earned(tr, sm, tab, stmt, s.0, s.1, s.2)
    }
}

/// Whether settling a tab's earned interest succeeds.
pub open spec fn earned_succeeds(tr: TokenReserve, sm: SubMarket, tab: LendingUserTabAccount) -> bool {
    tab.deposited_amount != 0 ==> spec_earned_split(tr, sm, tab) is Some
}

/// A fee on raw gross interest, rounded down; returns the raw floor and its whole value.
fn fee_floor(gross: Fixed, rate: u16) -> (r: Option<(Fixed, u128)>)
    ensures
        r is Some <==> (spec_fee_floor(fixed_raw(gross), rate) matches Some(f) && f / fp_scale() <= u128::MAX),
        r matches Some(p) ==> Some(fixed_raw(p.0)) == spec_fee_floor(fixed_raw(gross), rate)
            && p.1 == fixed_raw(p.0) / fp_scale(),
{
    let rate_fp = match fp_from_bps(rate as u64) { Some(v) => v, None => { return None; } };
    let fee = match fp_mul(gross, rate_fp) { Some(v) => v, None => { return None; } };
    let fee_floor = fp_floor(fee);
    match fp_to_u128(fee_floor) {
        Some(v) => Some((fee_floor, v)),
        None => None,
    }
}

/// Splits raw gross interest into user interest, sub market fee and solvency fee.
fn interest_split(gross: Fixed, sub_rate: u16, solvency_rate: u16) -> (r: Option<(u128, u128, u128)>)
    ensures
        r is Some <==> spec_interest_split(fixed_raw(gross), sub_rate, solvency_rate) is Some,
        r matches Some(s) ==> spec_interest_split(fixed_raw(gross), sub_rate, solvency_rate)
            == Some((s.0 as nat, s.1 as nat, s.2 as nat)),
{
    let (sf, sub_fee) = match fee_floor(gross, sub_rate) { Some(v) => v, None => { return None; } };
    let (vf, solvency_fee) = match fee_floor(gross, solvency_rate) { Some(v) => v, None => { return None; } };
    let after_sub = match fp_sub(gross, sf) { Some(v) => v, None => { return None; } };
    let after_fees = match fp_sub(after_sub, vf) { Some(v) => v, None => { return None; } };
    match fp_to_u128(after_fees) {
        Some(ui) => Some((ui, sub_fee, solvency_fee)),
        None => None,
    }
}

/// Credits a tab with the interest its deposit earned since its supply index was
/// recorded, less the sub market and solvency insurance fees, and records the fees
/// and the new balance on the token reserve, the sub market and the monthly statement.
pub fn update_user_previous_interest_earned(
    token_reserve: &mut TokenReserve,
    sub_market: &mut SubMarket,
    lending_user_tab_account: &mut LendingUserTabAccount,
    lending_user_monthly_statement_account: &mut LendingUserMonthlyStatementAccount,
) -> (r: Result<(), LendingError>)
    requires
        earned_computable(*old(token_reserve), *old(sub_market), *old(lending_user_tab_account),
            *old(lending_user_monthly_statement_account)),
    ensures
        r is Ok <==> earned_succeeds(*old(token_reserve), *old(sub_market), *old(lending_user_tab_account)),
        r matches Err(e) ==> e == LendingError::ArithmeticOverflow,
        r is Ok ==> (*final(token_reserve), *final(sub_market), *final(lending_user_tab_account),
            *final(lending_user_monthly_statement_account)) == spec_settle_earned(*old(token_reserve),
            *old(sub_market), *old(lending_user_tab_account), *old(lending_user_monthly_statement_account)),
        r is Err ==> *final(token_reserve) == *old(token_reserve) && *final(sub_market) == *old(sub_market)
            && *final(lending_user_tab_account) == *old(lending_user_tab_account)
            && *final(lending_user_monthly_statement_account) == *old(lending_user_monthly_statement_account),
{
    if lending_user_tab_account.deposited_amount == 0 {
        return Ok(());
    }
    let token_reserve_supply_index_fp = fp_from_scaled_u128(token_reserve.supply_interest_change_index);
    let user_supply_index_fp = fp_from_scaled_u128(lending_user_tab_account.supply_interest_change_index);
    let old_deposit_fp = fp_from_int(lending_user_tab_account.deposited_amount);
    let grown = match fp_mul(old_deposit_fp, token_reserve_supply_index_fp) {
        Some(v) => v,
        None => { return Err(LendingError::ArithmeticOverflow); },
    };
    let new_deposit = match fp_div(grown, user_supply_index_fp) {
        Some(v) => v,
        None => { return Err(LendingError::ArithmeticOverflow); },
    };
    let gross = match fp_sub(new_deposit, old_deposit_fp) {
        Some(v) => v,
        None => { return Err(LendingError::ArithmeticOverflow); },
    };

    let sub_market_fee: u16;
    let solvency_insurance_fee: u16;
    if sub_market.fee_on_interest_earned_rate + token_reserve.solvency_insurance_fee_rate <= 10_000 {
        sub_market_fee = sub_market.fee_on_interest_earned_rate;
        solvency_insurance_fee = token_reserve.solvency_insurance_fee_rate;
    } else {
        solvency_insurance_fee = token_reserve.solvency_insurance_fee_rate;
        sub_market_fee = 10_000 - token_reserve.solvency_insurance_fee_rate;
    }

    let (mut user_interest, sub_market_fee_amount, mut solvency_fee_amount) =
        match interest_split(gross, sub_market_fee, solvency_insurance_fee) {
            Some(s) => s,
            None => { return Err(LendingError::ArithmeticOverflow); },
        };

    if sub_market_fee + solvency_insurance_fee == 10_000 && user_interest > 0 {
        solvency_fee_amount = solvency_fee_amount + user_interest;
        user_interest = 0;
    }

    token_reserve.deposited_amount = token_reserve.deposited_amount + user_interest;
    token_reserve.interest_earned_amount = token_reserve.interest_earned_amount + user_interest;
    token_reserve.uncollected_solvency_insurance_fees_amount =
        token_reserve.uncollected_solvency_insurance_fees_amount + solvency_fee_amount;
    sub_market.deposited_amount = sub_market.deposited_amount + user_interest;
    sub_market.interest_earned_amount = sub_market.interest_earned_amount + user_interest;
    sub_market.sub_market_fees_generated_amount = sub_market.sub_market_fees_generated_amount + sub_market_fee_amount;
    sub_market.uncollected_sub_market_fees_amount = sub_market.uncollected_sub_market_fees_amount + sub_market_fee_amount;
    sub_market.solvency_insurance_fees_generated_amount =
        sub_market.solvency_insurance_fees_generated_amount + solvency_fee_amount;
    lending_user_tab_account.deposited_amount = lending_user_tab_account.deposited_amount + user_interest as u64;
    lending_user_tab_account.interest_earned_amount =
        lending_user_tab_account.interest_earned_amount + user_interest as u64;
    lending_user_tab_account.fees_generated_amount =
        lending_user_tab_account.fees_generated_amount + sub_market_fee_amount as u64;
    lending_user_tab_account.fees_generated_amount =
        lending_user_tab_account.fees_generated_amount + solvency_fee_amount as u64;
    lending_user_monthly_statement_account.snap_shot_balance_amount = lending_user_tab_account.deposited_amount;
    lending_user_monthly_statement_account.monthly_interest_earned_amount =
        lending_user_monthly_statement_account.monthly_interest_earned_amount + user_interest as u64;
    lending_user_monthly_statement_account.fees_generated_amount =
        lending_user_monthly_statement_account.fees_generated_amount + sub_market_fee_amount as u64;
    lending_user_monthly_statement_account.fees_generated_amount =
        lending_user_monthly_statement_account.fees_generated_amount + solvency_fee_amount as u64;
    Ok(())
}

/// Interest accrued on a tab's debt since its borrow index was recorded, rounded up
/// to a whole token.
pub open spec fn spec_accrued_interest(tr: TokenReserve, tab: LendingUserTabAccount) -> Option<nat> {
    match spec_balance_growth(tab.borrowed_amount, tr.borrow_interest_change_index, tab.borrow_interest_change_index) {
        None => None,
        Some(g) => {
            let c = spec_fp_ceil(g);
            if c / fp_scale() <= u128::MAX { Some(c / fp_scale()) } else { None }
        },
    }
}

/// The inputs on which settling accrued interest does not panic.
pub open spec fn accrued_computable(
    tr: TokenReserve,
    sm: SubMarket,
    tab: LendingUserTabAccount,
    stmt: LendingUserMonthlyStatementAccount,
) -> bool {
    tab.borrowed_amount != 0 ==> {
        &&& spec_balance_growth(tab.borrowed_amount, tr.borrow_interest_change_index, tab.borrow_interest_change_index)
            matches Some(g) ==> spec_fp_ceil(g) <= u256_max()
        &&& spec_accrued_interest(tr, tab) matches Some(v) ==> {
            &&& tr.borrowed_amount + v <= u128::MAX
            &&& tr.interest_accrued_amount + v <= u128::MAX
            &&& sm.borrowed_amount + v <= u128::MAX
            &&& sm.interest_accrued_amount + v <= u128::MAX
            &&& tab.borrowed_amount + (v as u64) <= u64::MAX
            &&& tab.interest_accrued_amount + (v as u64) <= u64::MAX
            &&& stmt.monthly_interest_accrued_amount + (v as u64) <= u64::MAX
        }
    }
}

/// The four accounts after settling a tab's accrued interest (unchanged when the tab
/// has no debt).
pub open spec fn spec_settle_accrued(
    tr: TokenReserve,
    sm: SubMarket,
    tab: LendingUserTabAccount,
    stmt: LendingUserMonthlyStatementAccount,
) -> (TokenReserve, SubMarket, LendingUserTabAccount, LendingUserMonthlyStatementAccount) {
    if tab.borrowed_amount == 0 {
        (tr, sm, tab, stmt)
    } else {
        let v = spec_accrued_interest(tr, tab)->0;
        let tab2 = LendingUserTabAccount {
            borrowed_amount: (tab.borrowed_amount + (v as u64)) as u64,
            interest_accrued_amount: (tab.interest_accrued_amount + (v as u64)) as u64,
            ..tab
        };
        (
            TokenReserve {
                borrowed_amount: (tr.borrowed_amount + v) as u128,
                interest_accrued_amount: (tr.interest_accrued_amount + v) as u128,
                ..tr
            },
            SubMarket {
                borrowed_amount: (sm.borrowed_amount + v) as u128,
                interest_accrued_amount: (sm.interest_accrued_amount + v) as u128,
                ..sm
            },
            tab2,
            LendingUserMonthlyStatementAccount {
                snap_shot_debt_amount: tab2.borrowed_amount,
                monthly_interest_accrued_amount: (stmt.monthly_interest_accrued_amount + (v as u64)) as u64,
                ..stmt
            },
        )
    }
}

/// Whether settling a tab's accrued interest succeeds.
pub open spec fn accrued_succeeds(tr: TokenReserve, tab: LendingUserTabAccount) -> bool {
    tab.borrowed_amount != 0 ==> spec_accrued_interest(tr, tab) is Some
}

/// Adds to a tab's debt the interest accrued since its borrow index was recorded,
/// rounded up, and records it on the token reserve, the sub market and the monthly
/// statement.
pub fn update_user_previous_interest_accrued(
    token_reserve: &mut TokenReserve,
    sub_market: &mut SubMarket,
    lending_user_tab_account: &mut LendingUserTabAccount,
    lending_user_monthly_statement_account: &mut LendingUserMonthlyStatementAccount,
) -> (r: Result<(), LendingError>)
    requires
        accrued_computable(*old(token_reserve), *old(sub_market), *old(lending_user_tab_account),
            *old(lending_user_monthly_statement_account)),
    ensures
        r is Ok <==> accrued_succeeds(*old(token_reserve), *old(lending_user_tab_account)),
        r matches Err(e) ==> e == LendingError::ArithmeticOverflow,
        r is Ok ==> (*final(token_reserve), *final(sub_market), *final(lending_user_tab_account),
            *final(lending_user_monthly_statement_account)) == spec_settle_accrued(*old(token_reserve),
            *old(sub_market), *old(lending_user_tab_account), *old(lending_user_monthly_statement_account)),
        r is Err ==> *final(token_reserve) == *old(token_reserve) && *final(sub_market) == *old(sub_market)
            && *final(lending_user_tab_account) == *old(lending_user_tab_account)
            && *final(lending_user_monthly_statement_account) == *old(lending_user_monthly_statement_account),
{
    if lending_user_tab_account.borrowed_amount == 0 {
        return Ok(());
    }
    let token_reserve_borrow_index_fp = fp_from_scaled_u128(token_reserve.borrow_interest_change_index);
    let user_borrow_index_fp = fp_from_scaled_u128(lending_user_tab_account.borrow_interest_change_index);
    let old_debt_fp = fp_from_int(lending_user_tab_account.borrowed_amount);
    let grown = match fp_mul(old_debt_fp, token_reserve_borrow_index_fp) {
        Some(v) => v,
        None => { return Err(LendingError::ArithmeticOverflow); },
    };
    let new_debt = match fp_div(grown, user_borrow_index_fp) {
        Some(v) => v,
        None => { return Err(LendingError::ArithmeticOverflow); },
    };
    let growth = match fp_sub(new_debt, old_debt_fp) {
        Some(v) => v,
        None => { return Err(LendingError::ArithmeticOverflow); },
    };
    let rounded = match fp_ceil(growth) {
        Some(v) => v,
        None => { return Err(LendingError::ArithmeticOverflow); },
    };
    let accrued = match fp_to_u128(rounded) {
        Some(v) => v,
        None => { return Err(LendingError::ArithmeticOverflow); },
    };
    token_reserve.borrowed_amount = token_reserve.borrowed_amount + accrued;
    token_reserve.interest_accrued_amount = token_reserve.interest_accrued_amount + accrued;
    sub_market.borrowed_amount = sub_market.borrowed_amount + accrued;
    sub_market.interest_accrued_amount = sub_market.interest_accrued_amount + accrued;
    lending_user_tab_account.borrowed_amount = lending_user_tab_account.borrowed_amount + accrued as u64;
    lending_user_tab_account.interest_accrued_amount =
        lending_user_tab_account.interest_accrued_amount + accrued as u64;
    lending_user_monthly_statement_account.snap_shot_debt_amount = lending_user_tab_account.borrowed_amount;
    lending_user_monthly_statement_account.monthly_interest_accrued_amount =
        lending_user_monthly_statement_account.monthly_interest_accrued_amount + accrued as u64;
    Ok(())
}

/// Removing whole multiples of the scale removes exactly that many whole units.
proof fn lemma_sub_whole_units(x: nat, k: nat)
    requires
        x >= k * fp_scale(),
    ensures
        ((x - k * fp_scale()) as nat) / fp_scale() == x / fp_scale() - k,
{
    let s = fp_scale();
    vstd::arithmetic::div_mod::lemma_fundamental_div_mod(x as int, s as int);
    vstd::arithmetic::div_mod::lemma_sub_mod_noop_right(x as int, (k * s) as int, s as int);
    assert(((x - k * s) as int) / (s as int) == (x as int) / (s as int) - (k as int)) by {
        vstd::arithmetic::div_mod::lemma_div_plus_one(0, 1);
        vstd::arithmetic::mul::lemma_mul_is_commutative(k as int, s as int);
        vstd::arithmetic::div_mod::lemma_hoist_over_denominator((x - k * s) as int, k as int, s as nat);
    }
}

/// Earned interest is split without loss: the whole tokens of gross interest equal
/// the user's interest plus the sub market fee plus the solvency insurance fee.
pub proof fn lemma_interest_split_conserves(gross: nat, sub_rate: u16, solvency_rate: u16)
    requires
        spec_interest_split(gross, sub_rate, solvency_rate) is Some,
    ensures
        ({
            let s = spec_interest_split(gross, sub_rate, solvency_rate)->0;
            s.0 + s.1 + s.2 == gross / fp_scale()
        }),
{
    let sc = fp_scale();
    let sf = spec_fee_floor(gross, sub_rate)->0;
    let vf = spec_fee_floor(gross, solvency_rate)->0;
    let k1 = sf / sc;
    let k2 = vf / sc;
    let m1 = spec_fp_mul(gross, spec_fp_from_bps(sub_rate as nat))->0;
    let m2 = spec_fp_mul(gross, spec_fp_from_bps(solvency_rate as nat))->0;
    assert(sf == (m1 / sc) * sc);
    assert(vf == (m2 / sc) * sc);
    vstd::arithmetic::div_mod::lemma_div_multiples_vanish((m1 / sc) as int, sc as int);
    vstd::arithmetic::div_mod::lemma_div_multiples_vanish((m2 / sc) as int, sc as int);
    vstd::arithmetic::mul::lemma_mul_is_commutative((m1 / sc) as int, sc as int);
    vstd::arithmetic::mul::lemma_mul_is_commutative((m2 / sc) as int, sc as int);
    assert(k1 == m1 / sc);
    assert(k2 == m2 / sc);
    let a1 = (gross - sf) as nat;
    lemma_sub_whole_units(gross, k1);
    lemma_sub_whole_units(a1, k2);
}

/// The whole tokens of a tab's gross interest are split exactly into the user's
/// interest, the sub market fee and the solvency insurance fee; when the two fee
/// rates add up to 100% the user earns nothing.
pub proof fn lemma_earned_interest_conserved(tr: TokenReserve, sm: SubMarket, tab: LendingUserTabAccount)
    requires
        spec_earned_split(tr, sm, tab) is Some,
    ensures
        ({
            let s = spec_earned_split(tr, sm, tab)->0;
            let gross = spec_balance_growth(tab.deposited_amount, tr.supply_interest_change_index,
                tab.supply_interest_change_index)->0;
            let (sub_rate, solvency_rate) = spec_fee_rates(sm.fee_on_interest_earned_rate, tr.solvency_insurance_fee_rate);
            &&& s.0 + s.1 + s.2 == gross / fp_scale()
            &&& sub_rate + solvency_rate == 10_000 ==> s.0 == 0
        }),
{
    let gross = spec_balance_growth(tab.deposited_amount, tr.supply_interest_change_index,
        tab.supply_interest_change_index)->0;
    let (sub_rate, solvency_rate) = spec_fee_rates(sm.fee_on_interest_earned_rate, tr.solvency_insurance_fee_rate);
    lemma_interest_split_conserves(gross, sub_rate, solvency_rate);
}

/// The growth of a balance in closed form: with `S = 10^18`, the raw growth of `amount`
/// from the user's index `u` to the reserve's index `r` is `floor(amount * r * S / u) -
/// amount * S` when that is not negative; there is none when it is negative or the
/// user's index is zero.
pub proof fn law_balance_growth_closed(amount: u64, r: u128, u: u128)
    ensures
        spec_balance_growth(amount, r, u) == if u == 0 {
            None::<nat>
        } else {
            let n = (amount * r * fp_scale()) / (u as int);
            if n >= amount * fp_scale() { Some((n - amount * fp_scale()) as nat) } else { None::<nat> }
        },
{
    let sc = fp_scale() as int;
    let a = amount * sc;
    let ai = amount as int;
    let ri = r as int;
    assert(ai * ri <= 0xffff_ffff_ffff_ffff * 0xffff_ffff_ffff_ffff_ffff_ffff_ffff_ffff) by (nonlinear_arith)
        requires
            0 <= ai <= 0xffff_ffff_ffff_ffff,
            0 <= ri <= 0xffff_ffff_ffff_ffff_ffff_ffff_ffff_ffff,
    {
    }
    let p = ai * ri;
    assert(p >= 0) by (nonlinear_arith)
        requires
            ai >= 0,
            ri >= 0,
            p == ai * ri,
    {
    }
    assert(p * sc <= u256_max()) by (nonlinear_arith)
        requires
            0 <= p <= 0xffff_ffff_ffff_ffff * 0xffff_ffff_ffff_ffff_ffff_ffff_ffff_ffff,
            sc == 1_000_000_000_000_000_000,
    {
    }
    if ai > 0 && ri > 0 {
        assert(a / sc == ai) by {
            vstd::arithmetic::div_mod::lemma_div_by_multiple(ai, sc);
        }
        assert(a * ri == p * sc) by (nonlinear_arith)
            requires
                a == ai * sc,
                p == ai * ri,
        {
        }
        assert((a * ri) / sc == p) by {
            vstd::arithmetic::div_mod::lemma_div_by_multiple(p, sc);
        }
        assert(spec_fp_mul(a as nat, ri as nat) == Some(p as nat));
        assert(p > 0) by (nonlinear_arith)
            requires
                ai > 0,
                ri > 0,
                p == ai * ri,
        {
        }
        assert(p <= u256_max() / fp_scale()) by {
            vstd::arithmetic::div_mod::lemma_div_by_multiple(p, sc);
            vstd::arithmetic::div_mod::lemma_div_is_ordered(p * sc, u256_max() as int, sc);
        }
        assert(amount * r * fp_scale() == p * sc);
    } else if ai == 0 {
        assert(a == 0);
        assert(amount * r * fp_scale() == 0) by (nonlinear_arith)
            requires
                amount == 0,
        {
        }
    } else {
        assert(ri == 0);
        assert(amount * r * fp_scale() == 0) by (nonlinear_arith)
            requires
                r == 0,
        {
        }
        if u != 0 {
            assert(a > 0) by (nonlinear_arith)
                requires
                    ai > 0,
                    sc > 0,
                    a == ai * sc,
            {
            }
        }
    }
}

/// The whole tokens of interest owed on `debt` grown from the user's index `u` to the
/// reserve's index `r`: the raw growth `floor(debt * r * S / u) - debt * S` (with `S =
/// 10^18`) divided by `S`, rounded up.
pub open spec fn owed_interest(debt: u64, r: u128, u: u128) -> int {
    let g = (debt * r * fp_scale()) / (u as int) - debt * fp_scale();
    g / fp_scale() as int + if g % fp_scale() as int != 0 { 1int } else { 0int }
}

/// The whole tokens of interest earned on `deposit` grown from the user's index `u` to
/// the reserve's index `r`, before fees: the raw growth divided by `S = 10^18`, rounded
/// down.
pub open spec fn earned_interest(deposit: u64, r: u128, u: u128) -> int {
    ((deposit * r * fp_scale()) / (u as int) - deposit * fp_scale()) / fp_scale() as int
}

/// Accrued interest in closed form: when it can be settled, a tab's accrued interest is
/// `owed_interest` of its debt from its borrow index to the reserve's, which is not
/// negative.
pub proof fn law_accrued_interest_closed(tr: TokenReserve, tab: LendingUserTabAccount)
    requires
        spec_accrued_interest(tr, tab) is Some,
    ensures
        tab.borrow_interest_change_index > 0,
        spec_accrued_interest(tr, tab)->0 == owed_interest(tab.borrowed_amount, tr.borrow_interest_change_index,
            tab.borrow_interest_change_index),
        owed_interest(tab.borrowed_amount, tr.borrow_interest_change_index, tab.borrow_interest_change_index) >= 0,
{
    law_balance_growth_closed(tab.borrowed_amount, tr.borrow_interest_change_index, tab.borrow_interest_change_index);
    let g = spec_balance_growth(tab.borrowed_amount, tr.borrow_interest_change_index,
        tab.borrow_interest_change_index)->0 as int;
    let sc = fp_scale() as int;
    let k = g / sc;
    if g % sc != 0 {
        vstd::arithmetic::div_mod::lemma_div_by_multiple(k + 1, sc);
    } else {
        vstd::arithmetic::div_mod::lemma_div_by_multiple(k, sc);
    }
}

/// With no fees, a tab's earned interest is credited whole: when both fee rates are
/// zero, the user's share of the interest earned on a deposit is `earned_interest` of
/// the deposit from its supply index to the reserve's.
pub proof fn law_earned_interest_without_fees(tr: TokenReserve, sm: SubMarket, tab: LendingUserTabAccount)
    requires
        sm.fee_on_interest_earned_rate == 0,
        tr.solvency_insurance_fee_rate == 0,
        spec_earned_split(tr, sm, tab) is Some,
    ensures
        tab.supply_interest_change_index > 0,
        ({
            let (ui, sf, vf) = spec_earned_split(tr, sm, tab)->Some_0;
            &&& ui == earned_interest(tab.deposited_amount, tr.supply_interest_change_index,
                tab.supply_interest_change_index)
            &&& sf == 0
            &&& vf == 0
        }),
{
    law_balance_growth_closed(tab.deposited_amount, tr.supply_interest_change_index, tab.supply_interest_change_index);
    let g = spec_balance_growth(tab.deposited_amount, tr.supply_interest_change_index,
        tab.supply_interest_change_index)->0;
    assert(spec_fp_from_bps(0) == 0);
    assert(spec_fee_floor(g, 0) == Some(0nat));
}

} // verus!
