use vstd::prelude::*;
use crate::structs::TokenReserve;

verus! {

/// 100.00% in basis points.
pub const DECIMAL_SCALING: u128 = 10_000;
/// The utilization rate at which the borrow rate curve turns steep (70.00%).
pub const OPTIMAL_UTILIZATION_RATE: u128 = 7_000;
/// The extra borrow rate reached at 100% utilization above the kink (34.00%).
pub const BORROW_APY_SLOPE2: u128 = 3_400;

/// Utilization rate in basis points, truncated to 16 bits as it is stored.
pub open spec fn spec_utilization_rate(borrowed: u128, deposited: u128) -> u16 {
    ((borrowed * 10_000) / deposited as int) as u16
}

/// The part of the borrow rate above the kink, before it is stored in 16 bits.
pub open spec fn spec_high_rate_base(utilization: u16) -> int {
    ((utilization - 7_000) * 3_400) / 3_000
}

/// Borrow rate for a given utilization: fixed, or two linear pieces joined at 70%.
pub open spec fn spec_borrow_apy(base: u16, use_fixed: bool, utilization: u16) -> u16 {
    if use_fixed {
        base
    } else if utilization < 7_000 {
        (base + (utilization * base) / 7_000) as u16
    } else {
        (base * 2 + (spec_high_rate_base(utilization) as u16)) as u16
    }
}

/// Supply rate: the borrow rate scaled by the utilization rate.
pub open spec fn spec_supply_apy(borrow_apy: u16, utilization: u16) -> u16 {
    ((borrow_apy * utilization) / 10_000) as u16
}

/// The inputs on which recomputing the rates neither divides by zero nor overflows.
pub open spec fn rates_computable(tr: TokenReserve) -> bool {
    tr.borrowed_amount != 0 ==> {
        &&& tr.deposited_amount != 0
        &&& tr.borrowed_amount * 10_000 <= u128::MAX
        &&& {
            let u = spec_utilization_rate(tr.borrowed_amount, tr.deposited_amount);
            !tr.use_fixed_borrow_apy && u >= 7_000 ==> tr.base_borrow_apy * 2 + (spec_high_rate_base(u) as u16) <= u16::MAX
        }
    }
}

/// The token reserve with its utilization, borrow and supply rates recomputed.
pub open spec fn spec_update_rates(tr: TokenReserve) -> TokenReserve {
    if tr.borrowed_amount == 0 {
        TokenReserve { utilization_rate: 0, supply_apy: 0, borrow_apy: tr.base_borrow_apy, ..tr }
    } else {
        let u = spec_utilization_rate(tr.borrowed_amount, tr.deposited_amount);
        let b = spec_borrow_apy(tr.base_borrow_apy, tr.use_fixed_borrow_apy, u);
        TokenReserve { utilization_rate: u, borrow_apy: b, supply_apy: spec_supply_apy(b, u), ..tr }
    }
}

/// Recomputes the utilization rate, borrow APY and supply APY of a token reserve.
pub fn update_token_reserve_rates(token_reserve: &mut TokenReserve)
    requires
        rates_computable(*old(token_reserve)),
    ensures
        *final(token_reserve) == spec_update_rates(*old(token_reserve)),
{
    if token_reserve.borrowed_amount == 0 {
        token_reserve.utilization_rate = 0;
        token_reserve.supply_apy = 0;
        token_reserve.borrow_apy = token_reserve.base_borrow_apy;
    } else {
        let decimal_scaling: u128 = DECIMAL_SCALING;
        let borrowed_amount_scaled = token_reserve.borrowed_amount * decimal_scaling;
        let utilization_rate = borrowed_amount_scaled / token_reserve.deposited_amount;
        token_reserve.utilization_rate = utilization_rate as u16;

        if token_reserve.use_fixed_borrow_apy {
            token_reserve.borrow_apy = token_reserve.base_borrow_apy;
        } else {
            let optimal_utilization_rate: u128 = OPTIMAL_UTILIZATION_RATE;
            let utilization_rate: u128 = token_reserve.utilization_rate as u128;
            if utilization_rate < optimal_utilization_rate {
                let borrow_apy_slope1: u128 = token_reserve.base_borrow_apy as u128;
                assert(utilization_rate * borrow_apy_slope1 <= 65535 * 65535) by (nonlinear_arith)
                    requires
                        utilization_rate <= 65535,
                        borrow_apy_slope1 <= 65535,
                ;
                let u_rate_times_slope1 = utilization_rate * borrow_apy_slope1;
                let scaled = u_rate_times_slope1 / optimal_utilization_rate;
                token_reserve.borrow_apy = (borrow_apy_slope1 + scaled) as u16;
            } else {
                let borrow_apy_slope2: u128 = BORROW_APY_SLOPE2;
                let u_minus_optimal = utilization_rate - optimal_utilization_rate;
                let hundred_minus_optimal = decimal_scaling - optimal_utilization_rate;
                let times_slope2 = u_minus_optimal * borrow_apy_slope2;
                let new_high_rate_base = times_slope2 / hundred_minus_optimal;
                token_reserve.borrow_apy = (token_reserve.base_borrow_apy * 2) + new_high_rate_base as u16;
            }
        }
        assert(token_reserve.borrow_apy as u32 * token_reserve.utilization_rate as u32 <= 65535 * 65535)
            by (nonlinear_arith)
            requires
                token_reserve.borrow_apy <= 65535,
                token_reserve.utilization_rate <= 65535,
        ;
        let unscaled_supply_apy = token_reserve.borrow_apy as u32 * token_reserve.utilization_rate as u32;
        token_reserve.supply_apy = (unscaled_supply_apy / decimal_scaling as u32) as u16;
    }
}

} // verus!
