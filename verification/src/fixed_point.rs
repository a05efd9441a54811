use vstd::prelude::*;
use ra_solana_math::{FixedPoint, U256};

verus! {

/// A 256 bit fixed point number scaled by 10^18, held as its four 64 bit limbs,
/// least significant first (the layout of the fixed point crate's 256 bit integer).
#[derive(Debug, Clone, Copy)]
pub struct Fixed {
    pub limbs: [u64; 4],
}

/// The scale of a fixed point number: 1.0 is stored as 10^18.
pub open spec fn fp_scale() -> nat {
    1_000_000_000_000_000_000nat
}

/// The largest 256 bit unsigned integer.
pub open spec fn u256_max() -> nat {
    115792089237316195423570985008687907853269984665640564039457584007913129639935nat
}

/// The integer that a fixed point number stores (its value times 10^18).
pub open spec fn fixed_raw(x: Fixed) -> nat {
    x.limbs[0] as nat
        + x.limbs[1] as nat * 0x1_0000_0000_0000_0000nat
        + x.limbs[2] as nat * 0x1_0000_0000_0000_0000_0000_0000_0000_0000nat
        + x.limbs[3] as nat * 0x1_0000_0000_0000_0000_0000_0000_0000_0000_0000_0000_0000_0000nat
}

/// `(a * b) / d` on 256 bit integers as the fixed point crate computes it: when the
/// product would not fit it divides first, failing only when that result does not fit.
pub open spec fn spec_mul_div(a: nat, b: nat, d: nat) -> Option<nat> {
    if d == 0 {
        None
    } else if a == 0 || b == 0 {
        Some(0)
    } else if a > u256_max() / b {
        let r = (a / d) * b;
        if r <= u256_max() { Some(r) } else { None }
    } else {
        Some((a * b) / d)
    }
}

/// Fixed point product of two raw values.
pub open spec fn spec_fp_mul(a: nat, b: nat) -> Option<nat> {
    spec_mul_div(a, b, fp_scale())
}

/// Fixed point quotient of two raw values.
pub open spec fn spec_fp_div(a: nat, b: nat) -> Option<nat> {
    if b == 0 { None } else { spec_mul_div(a, fp_scale(), b) }
}

/// Checked 256 bit sum.
pub open spec fn spec_fp_add(a: nat, b: nat) -> Option<nat> {
    if a + b <= u256_max() { Some(a + b) } else { None }
}

/// Checked 256 bit difference.
pub open spec fn spec_fp_sub(a: nat, b: nat) -> Option<nat> {
    if a >= b { Some((a - b) as nat) } else { None }
}

/// Rounds a raw value down to a whole number.
pub open spec fn spec_fp_floor(a: nat) -> nat {
    (a / fp_scale()) * fp_scale()
}

/// Rounds a raw value up to a whole number.
pub open spec fn spec_fp_ceil(a: nat) -> nat {
    if a % fp_scale() != 0 { (a / fp_scale() + 1) * fp_scale() } else { (a / fp_scale()) * fp_scale() }
}

/// The raw value of a whole number of basis points.
pub open spec fn spec_fp_from_bps(bps: nat) -> nat {
    (bps * fp_scale()) / 10_000
}

/// The fixed point crate's `FixedPoint::from_int`: the integer scaled by 10^18.
#[verifier::external_body]
pub(crate) fn fp_from_int(n: u64) -> (r: Fixed)
    ensures
        fixed_raw(r) == n * fp_scale(),
{
    Fixed { limbs: FixedPoint::from_int(n).value.0 }
}

/// The fixed point crate's `FixedPoint::from_scaled_u128`: the raw value taken as it is.
#[verifier::external_body]
pub(crate) fn fp_from_scaled_u128(v: u128) -> (r: Fixed)
    ensures
        fixed_raw(r) == v,
{
    Fixed { limbs: FixedPoint::from_scaled_u128(v).value.0 }
}

/// The fixed point crate's `FixedPoint::from_bps`: `bps * 10^18 / 10_000`, which
/// cannot fail since the denominator is not zero.
#[verifier::external_body]
pub(crate) fn fp_from_bps(bps: u64) -> (r: Option<Fixed>)
    ensures
        r is Some,
        r matches Some(x) ==> fixed_raw(x) == spec_fp_from_bps(bps as nat),
{
    match FixedPoint::from_bps(bps) {
        Ok(x) => Some(Fixed { limbs: x.value.0 }),
        Err(_) => None,
    }
}

/// The fixed point crate's `FixedPoint::mul`.
#[verifier::external_body]
pub(crate) fn fp_mul(a: Fixed, b: Fixed) -> (r: Option<Fixed>)
    ensures
        r is Some <==> spec_fp_mul(fixed_raw(a), fixed_raw(b)) is Some,
        r matches Some(x) ==> Some(fixed_raw(x)) == spec_fp_mul(fixed_raw(a), fixed_raw(b)),
{
    match FixedPoint::from_scaled(U256(a.limbs)).mul(&FixedPoint::from_scaled(U256(b.limbs))) {
        Ok(x) => Some(Fixed { limbs: x.value.0 }),
        Err(_) => None,
    }
}

/// The fixed point crate's `FixedPoint::div`.
#[verifier::external_body]
pub(crate) fn fp_div(a: Fixed, b: Fixed) -> (r: Option<Fixed>)
    ensures
        r is Some <==> spec_fp_div(fixed_raw(a), fixed_raw(b)) is Some,
        r matches Some(x) ==> Some(fixed_raw(x)) == spec_fp_div(fixed_raw(a), fixed_raw(b)),
{
    match FixedPoint::from_scaled(U256(a.limbs)).div(&FixedPoint::from_scaled(U256(b.limbs))) {
        Ok(x) => Some(Fixed { limbs: x.value.0 }),
        Err(_) => None,
    }
}

/// The fixed point crate's `FixedPoint::add`.
#[verifier::external_body]
pub(crate) fn fp_add(a: Fixed, b: Fixed) -> (r: Option<Fixed>)
    ensures
        r is Some <==> spec_fp_add(fixed_raw(a), fixed_raw(b)) is Some,
        r matches Some(x) ==> Some(fixed_raw(x)) == spec_fp_add(fixed_raw(a), fixed_raw(b)),
{
    match FixedPoint::from_scaled(U256(a.limbs)).add(&FixedPoint::from_scaled(U256(b.limbs))) {
        Ok(x) => Some(Fixed { limbs: x.value.0 }),
        Err(_) => None,
    }
}

/// The fixed point crate's `FixedPoint::sub`.
#[verifier::external_body]
pub(crate) fn fp_sub(a: Fixed, b: Fixed) -> (r: Option<Fixed>)
    ensures
        r is Some <==> spec_fp_sub(fixed_raw(a), fixed_raw(b)) is Some,
        r matches Some(x) ==> Some(fixed_raw(x)) == spec_fp_sub(fixed_raw(a), fixed_raw(b)),
{
    match FixedPoint::from_scaled(U256(a.limbs)).sub(&FixedPoint::from_scaled(U256(b.limbs))) {
        Ok(x) => Some(Fixed { limbs: x.value.0 }),
        Err(_) => None,
    }
}

/// The fixed point crate's `FixedPoint::floor`.
#[verifier::external_body]
pub(crate) fn fp_floor(a: Fixed) -> (r: Fixed)
    ensures
        fixed_raw(r) == spec_fp_floor(fixed_raw(a)),
{
    Fixed { limbs: FixedPoint::from_scaled(U256(a.limbs)).floor().value.0 }
}

/// The fixed point crate's `FixedPoint::ceil`; it panics when the rounded value
/// does not fit in 256 bits, which `requires` rules out.
#[verifier::external_body]
pub(crate) fn fp_ceil(a: Fixed) -> (r: Option<Fixed>)
    requires
        spec_fp_ceil(fixed_raw(a)) <= u256_max(),
    ensures
        r is Some,
        r matches Some(x) ==> fixed_raw(x) == spec_fp_ceil(fixed_raw(a)),
{
    match FixedPoint::from_scaled(U256(a.limbs)).ceil() {
        Ok(x) => Some(Fixed { limbs: x.value.0 }),
        Err(_) => None,
    }
}

/// The fixed point crate's `FixedPoint::to_u128`: the whole part, when it fits.
#[verifier::external_body]
pub(crate) fn fp_to_u128(a: Fixed) -> (r: Option<u128>)
    ensures
        r is Some <==> fixed_raw(a) / fp_scale() <= u128::MAX,
        r matches Some(v) ==> v == fixed_raw(a) / fp_scale(),
{
    match FixedPoint::from_scaled(U256(a.limbs)).to_u128() {
        Ok(v) => Some(v),
        Err(_) => None,
    }
}

/// The 256 bit integer's `as_u128` on the raw value; it panics when the raw
/// value does not fit, which `requires` rules out.
#[verifier::external_body]
pub(crate) fn fp_raw_as_u128(a: Fixed) -> (r: u128)
    requires
        fixed_raw(a) <= u128::MAX,
    ensures
        r == fixed_raw(a),
{
    U256(a.limbs).as_u128()
}

} // verus!
