use vstd::prelude::*;
use crate::errors::LendingError;
use crate::fixed_point::{
    Fixed, u256_max, fixed_raw, fp_scale, spec_fp_mul, spec_fp_div, spec_fp_add, spec_fp_from_bps, fp_from_bps, fp_from_int,
    fp_from_scaled_u128, fp_mul, fp_div, fp_add, fp_raw_as_u128,
};
use crate::structs::TokenReserve;

verus! {

/// Seconds in a year of 365.2425 days.
pub const SECONDS_IN_A_YEAR: u64 = 31_556_952;

/// The next term of the exponential series: `term * x / k`, in fixed point.
pub open spec fn spec_next_term(term: nat, x: nat, k: nat) -> Option<nat> {
    match spec_fp_mul(term, x) {
        None => None,
        Some(p) => spec_fp_div(p, k * fp_scale()),
    }
}

/// `1 + x + x^2/2! + x^3/3! + x^4/4!` in fixed point, every step checked.
pub open spec fn spec_taylor_sum(x: nat) -> Option<nat> {
    match spec_next_term(x, x, 2) {
        None => None,
        Some(t2) => match spec_next_term(t2, x, 3) {
            None => None,
            Some(t3) => match spec_next_term(t3, x, 4) {
                None => None,
                Some(t4) => match spec_fp_add(fp_scale(), x) {
                    None => None,
                    Some(s1) => match spec_fp_add(s1, t2) {
                        None => None,
                        Some(s2) => match spec_fp_add(s2, t3) {
                            None => None,
                            Some(s3) => spec_fp_add(s3, t4),
                        },
                    },
                },
            },
        },
    }
}

/// The growth factor of an interest index over `dt` seconds at `apy` basis points a
/// year: the fourth order Taylor polynomial of `e^(apy * dt / year)`.
pub open spec fn spec_compounding_factor(apy: u16, dt: u64) -> Option<nat> {
    match spec_fp_mul(spec_fp_from_bps(apy as nat), dt as nat * fp_scale()) {
        None => None,
        Some(p) => match spec_fp_div(p, SECONDS_IN_A_YEAR as nat * fp_scale()) {
            None => None,
            Some(x) => spec_taylor_sum(x),
        },
    }
}

/// An interest index grown by the compounding factor.
pub open spec fn spec_grown_index(index: u128, apy: u16, dt: u64) -> Option<nat> {
    match spec_compounding_factor(apy, dt) {
        None => None,
        Some(f) => spec_fp_mul(index as nat, f),
    }
}

/// Computes the compounding factor of `apy` over `change_in_time` seconds.
fn compounding_factor(apy: u16, change_in_time: u64) -> (r: Option<Fixed>)
    ensures
        r is Some <==> spec_compounding_factor(apy, change_in_time) is Some,
        r matches Some(f) ==> Some(fixed_raw(f)) == spec_compounding_factor(apy, change_in_time),
{
    let rate = match fp_from_bps(apy as u64) {
        Some(v) => v,
        None => { return None; }
    };
    let change_in_time_fp = fp_from_int(change_in_time);
    let seconds_in_a_year_fp = fp_from_int(SECONDS_IN_A_YEAR);
    let one = fp_from_int(1);
    let two = fp_from_int(2);
    let three = fp_from_int(3);
    let four = fp_from_int(4);
    let p = match fp_mul(rate, change_in_time_fp) { Some(v) => v, None => { return None; } };
    let x = match fp_div(p, seconds_in_a_year_fp) { Some(v) => v, None => { return None; } };
    let m2 = match fp_mul(x, x) { Some(v) => v, None => { return None; } };
    let t2 = match fp_div(m2, two) { Some(v) => v, None => { return None; } };
    let m3 = match fp_mul(t2, x) { Some(v) => v, None => { return None; } };
    let t3 = match fp_div(m3, three) { Some(v) => v, None => { return None; } };
    let m4 = match fp_mul(t3, x) { Some(v) => v, None => { return None; } };
    let t4 = match fp_div(m4, four) { Some(v) => v, None => { return None; } };
    let s1 = match fp_add(one, x) { Some(v) => v, None => { return None; } };
    let s2 = match fp_add(s1, t2) { Some(v) => v, None => { return None; } };
    let s3 = match fp_add(s2, t3) { Some(v) => v, None => { return None; } };
    fp_add(s3, t4)
}

/// Grows one interest index; the result must fit the index's 128 bits.
fn grow_index(index: u128, apy: u16, change_in_time: u64) -> (r: Option<u128>)
    requires
        spec_grown_index(index, apy, change_in_time) matches Some(v) ==> v <= u128::MAX,
    ensures
        r is Some <==> spec_grown_index(index, apy, change_in_time) is Some,
        r matches Some(v) ==> Some(v as nat) == spec_grown_index(index, apy, change_in_time),
{
    let factor = match compounding_factor(apy, change_in_time) { Some(f) => f, None => { return None; } };
    let old_index = fp_from_scaled_u128(index);
    match fp_mul(old_index, factor) {
        Some(v) => Some(fp_raw_as_u128(v)),
        None => None,
    }
}

/// The inputs on which advancing the interest indexes does not panic: time does
/// not run backwards and each grown index fits in 128 bits.
pub open spec fn index_update_computable(tr: TokenReserve, new_time_stamp: u64) -> bool {
    tr.borrowed_amount != 0 ==> {
        &&& new_time_stamp >= tr.last_lending_activity_time_stamp
        &&& {
            let dt = (new_time_stamp - tr.last_lending_activity_time_stamp) as u64;
            &&& spec_grown_index(tr.supply_interest_change_index, tr.supply_apy, dt) matches Some(v) ==> v <= u128::MAX
            &&& spec_grown_index(tr.borrow_interest_change_index, tr.borrow_apy, dt) matches Some(v) ==> v <= u128::MAX
        }
    }
}

/// Whether advancing the interest indexes succeeds.
pub open spec fn index_update_succeeds(tr: TokenReserve, new_time_stamp: u64) -> bool {
    tr.borrowed_amount != 0 ==> {
        let dt = (new_time_stamp - tr.last_lending_activity_time_stamp) as u64;
        &&& spec_grown_index(tr.supply_interest_change_index, tr.supply_apy, dt) is Some
        &&& spec_grown_index(tr.borrow_interest_change_index, tr.borrow_apy, dt) is Some
    }
}

/// The token reserve after a successful advance of its interest indexes to `new_time_stamp`.
pub open spec fn spec_update_index(tr: TokenReserve, new_time_stamp: u64, new_clock_slot: Option<u64>) -> TokenReserve {
    let dt = (new_time_stamp - tr.last_lending_activity_time_stamp) as u64;
    let grown = if tr.borrowed_amount != 0 {
        TokenReserve {
            supply_interest_change_index:
                spec_grown_index(tr.supply_interest_change_index, tr.supply_apy, dt)->0 as u128,
            borrow_interest_change_index:
                spec_grown_index(tr.borrow_interest_change_index, tr.borrow_apy, dt)->0 as u128,
            ..tr
        }
    } else {
        tr
    };
    TokenReserve {
        last_lending_activity_time_stamp: new_time_stamp,
        last_health_update_clock_slot: match new_clock_slot {
            Some(s) => s,
            None => tr.last_health_update_clock_slot,
        },
        ..grown
    }
}

/// Advances the token reserve's supply and borrow interest indexes to `new_time_stamp`
/// by continuous compounding (a fourth order Taylor series), when anything is borrowed,
/// and records the time stamp and, when given, the clock slot of the refresh.
pub fn update_token_reserve_supply_and_borrow_interest_change_index(
    token_reserve: &mut TokenReserve,
    new_time_stamp: u64,
    new_clock_slot: Option<u64>,
) -> (r: Result<(), LendingError>)
    requires
        index_update_computable(*old(token_reserve), new_time_stamp),
    ensures
        r is Ok <==> index_update_succeeds(*old(token_reserve), new_time_stamp),
        r is Ok ==> *final(token_reserve) == spec_update_index(*old(token_reserve), new_time_stamp, new_clock_slot),
        r matches Err(e) ==> e == LendingError::ArithmeticOverflow,
        r is Err ==> ({
            let o = *old(token_reserve);
            let f = *final(token_reserve);
            let dt = (new_time_stamp - o.last_lending_activity_time_stamp) as u64;
            &&& f.borrow_interest_change_index == o.borrow_interest_change_index
            &&& f.supply_interest_change_index == (match spec_grown_index(o.supply_interest_change_index, o.supply_apy, dt) {
                Some(v) => v as u128,
                None => o.supply_interest_change_index,
            })
            &&& f == (TokenReserve { supply_interest_change_index: f.supply_interest_change_index, ..o })
        }),
{
    if token_reserve.borrowed_amount != 0 {
        let change_in_time = new_time_stamp - token_reserve.last_lending_activity_time_stamp;
        match grow_index(token_reserve.supply_interest_change_index, token_reserve.supply_apy, change_in_time) {
            Some(v) => { token_reserve.supply_interest_change_index = v; },
            None => { return Err(LendingError::ArithmeticOverflow); },
        }
        match grow_index(token_reserve.borrow_interest_change_index, token_reserve.borrow_apy, change_in_time) {
            Some(v) => { token_reserve.borrow_interest_change_index = v; },
            None => { return Err(LendingError::ArithmeticOverflow); },
        }
    }
    token_reserve.last_lending_activity_time_stamp = new_time_stamp;
    if let Some(clock_slot) = new_clock_slot {
        token_reserve.last_health_update_clock_slot = clock_slot;
    }
    Ok(())
}

/// The Taylor sum `1 + x + ...` is never below one.
proof fn lemma_taylor_sum_at_least_one(x: nat)
    requires
        spec_taylor_sum(x) is Some,
    ensures
        spec_taylor_sum(x)->0 >= fp_scale(),
{
}

/// Fixed point product with a factor of at least one (and at least two when the
/// product overflows) never shrinks a value of at least one.
proof fn lemma_mul_by_factor_not_smaller(a: nat, f: nat)
    requires
        a <= u128::MAX,
        a >= fp_scale(),
        f >= fp_scale(),
        spec_fp_mul(a, f) is Some,
    ensures
        spec_fp_mul(a, f)->0 >= a,
{
    let s = fp_scale();
    let m = u256_max();
    if a > m / f {
        // the crate divides first: (a / s) * f
        assert(a * (m / f) <= m) by (nonlinear_arith)
            requires a > m / f, a <= u128::MAX, f > 0, m == 115792089237316195423570985008687907853269984665640564039457584007913129639935nat;
        assert(f >= 2 * s) by (nonlinear_arith)
            requires
                a > m / f,
                a <= u128::MAX,
                f > 0,
                s == 1_000_000_000_000_000_000nat,
                m == 115792089237316195423570985008687907853269984665640564039457584007913129639935nat,
        {
            if f < 2 * s {
                assert(m / f >= m / (2 * s)) by {
                    vstd::arithmetic::div_mod::lemma_div_is_ordered_by_denominator(m as int, f as int, (2 * s) as int);
                }
            }
        }
        assert((a / s) * f >= a) by (nonlinear_arith)
            requires a >= s, f >= 2 * s, s > 0,
        {
            let q = a / s;
            vstd::arithmetic::div_mod::lemma_fundamental_div_mod(a as int, s as int);
            assert(q >= 1);
            assert(a < (q + 1) * s);
            assert((q + 1) * s <= 2 * q * s);
            assert(2 * q * s <= q * f);
        }
    } else {
        assert((a * f) / s >= a) by (nonlinear_arith)
            requires f >= s, s > 0,
        {
            assert(a * f >= a * s);
            vstd::arithmetic::div_mod::lemma_div_is_ordered((a * s) as int, (a * f) as int, s as int);
            vstd::arithmetic::div_mod::lemma_div_multiples_vanish(a as int, s as int);
        }
    }
}

/// Interest indexes never decrease: an index of at least one grows by a factor of
/// at least one.
pub proof fn lemma_grown_index_not_smaller(index: u128, apy: u16, dt: u64)
    requires
        index >= fp_scale(),
        spec_grown_index(index, apy, dt) is Some,
    ensures
        spec_grown_index(index, apy, dt)->0 >= index,
{
    let f = spec_compounding_factor(apy, dt)->0;
    let p = spec_fp_mul(spec_fp_from_bps(apy as nat), dt as nat * fp_scale())->0;
    let x = spec_fp_div(p, SECONDS_IN_A_YEAR as nat * fp_scale())->0;
    lemma_taylor_sum_at_least_one(x);
    lemma_mul_by_factor_not_smaller(index as nat, f);
}

/// With no time elapsed, or a zero rate, an interest index stays as it is.
pub proof fn lemma_no_elapsed_interest(index: u128, apy: u16, dt: u64)
    requires
        dt == 0 || apy == 0,
    ensures
        spec_grown_index(index, apy, dt) == Some(index as nat),
{
    let s = fp_scale();
    assert(spec_fp_from_bps(0) == 0);
    assert(spec_fp_mul(spec_fp_from_bps(apy as nat), dt as nat * s) == Some(0nat));
    assert(spec_fp_div(0, SECONDS_IN_A_YEAR as nat * s) == Some(0nat));
    assert(spec_next_term(0, 0, 2) == Some(0nat));
    assert(spec_next_term(0, 0, 3) == Some(0nat));
    assert(spec_next_term(0, 0, 4) == Some(0nat));
    assert(spec_taylor_sum(0) == Some(s));
    if index != 0 {
        assert(index * s <= u256_max()) by (nonlinear_arith)
            requires index <= u128::MAX, s == 1_000_000_000_000_000_000nat;
        assert(!(index > u256_max() / s)) by (nonlinear_arith)
            requires index * s <= u256_max(), s > 0;
        assert(((index as nat) * s) / s == index as nat) by (nonlinear_arith)
            requires s > 0;
    }
}

} // verus!
