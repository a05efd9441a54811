use vstd::prelude::*;
use crate::errors::LendingError;
use crate::structs::VerifiedPriceData;

verus! {

/// The oldest price data accepted, in slots (about 30 seconds).
pub const MAX_PRICE_AGE_SLOTS: u64 = 75;

/// Price data is fresh when it is at most 75 slots older than the current slot.
pub open spec fn price_is_fresh(price_data_clock_slot: u64, current_clock_slot: u64) -> bool {
    current_clock_slot <= price_data_clock_slot || current_clock_slot - price_data_clock_slot <= 75
}

/// Rejects price data read more than 75 slots before the current slot.
pub fn check_token_price_staleness(price_data_clock_slot: u64, current_clock_slot: u64) -> (r: Result<(), LendingError>)
    ensures
        r is Ok <==> price_is_fresh(price_data_clock_slot, current_clock_slot),
        r matches Err(e) ==> e == LendingError::OracleDataStale,
{
    if current_clock_slot.saturating_sub(price_data_clock_slot) > MAX_PRICE_AGE_SLOTS {
        return Err(LendingError::OracleDataStale);
    }
    Ok(())
}

/// The price of `token_id`: that of the first entry for it in the list.
pub open spec fn spec_price_lookup(prices: Seq<VerifiedPriceData>, token_id: u8) -> Option<u128>
    decreases prices.len(),
{
    if prices.len() == 0 {
        None
    } else if prices[0].token_id == token_id {
        Some(prices[0].normalized_price_18_decimals)
    } else {
        spec_price_lookup(prices.drop_first(), token_id)
    }
}

/// The price lookup as a result.
pub open spec fn spec_verified_price(prices: Seq<VerifiedPriceData>, token_id: u8) -> Result<u128, LendingError> {
    match spec_price_lookup(prices, token_id) {
        Some(p) => Ok(p),
        None => Err(LendingError::OraclePriceNotFound),
    }
}

/// The price of `token_id`: the first entry for it in the verified prices.
pub fn get_verified_token_price(verified_token_prices: &[VerifiedPriceData], token_id: u8) -> (r: Result<u128, LendingError>)
    ensures
        r == spec_verified_price(verified_token_prices@, token_id),
{
    let ghost s = verified_token_prices@;
    let mut i: usize = 0;
    assert(s.skip(0) =~= s);
    while i < verified_token_prices.len()
        invariant
            0 <= i <= s.len(),
            s == verified_token_prices@,
            spec_price_lookup(s, token_id) == spec_price_lookup(s.skip(i as int), token_id),
        decreases s.len() - i,
    {
        assert(s.skip(i as int)[0] == s[i as int]);
        if verified_token_prices[i].token_id == token_id {
            return Ok(verified_token_prices[i].normalized_price_18_decimals);
        }
        assert(s.skip(i as int).drop_first() =~= s.skip(i + 1));
        i = i + 1;
    }
    assert(s.skip(i as int).len() == 0);
    Err(LendingError::OraclePriceNotFound)
}

/// A found price is the price of the first entry for the token.
pub proof fn lemma_price_lookup_is_first(prices: Seq<VerifiedPriceData>, token_id: u8)
    requires
        spec_price_lookup(prices, token_id) is Some,
    ensures
        exists|i: int| 0 <= i < prices.len() && prices[i].token_id == token_id
            && prices[i].normalized_price_18_decimals == spec_price_lookup(prices, token_id)->0
            && forall|j: int| 0 <= j < i ==> prices[j].token_id != token_id,
    decreases prices.len(),
{
    if prices[0].token_id == token_id {
        assert(0 <= 0 < prices.len() && prices[0].token_id == token_id);
    } else {
        lemma_price_lookup_is_first(prices.drop_first(), token_id);
        let i = choose|i: int| 0 <= i < prices.drop_first().len() && prices.drop_first()[i].token_id == token_id
            && prices.drop_first()[i].normalized_price_18_decimals == spec_price_lookup(prices.drop_first(), token_id)->0
            && forall|j: int| 0 <= j < i ==> prices.drop_first()[j].token_id != token_id;
        assert(prices[i + 1] == prices.drop_first()[i]);
        assert forall|j: int| 0 <= j < i + 1 implies prices[j].token_id != token_id by {
            if j > 0 {
                assert(prices[j] == prices.drop_first()[j - 1]);
            }
        }
    }
}

/// Ten to the power `n`.
pub open spec fn pow10(n: nat) -> nat
    decreases n,
{
    if n == 0 { 1 } else { 10 * pow10((n - 1) as nat) }
}

proof fn lemma_pow10_monotone(a: nat, b: nat)
    requires
        a <= b,
    ensures
        pow10(a) <= pow10(b),
    decreases b,
{
    if a < b {
        lemma_pow10_monotone(a, (b - 1) as nat);
    }
}

/// The number of base units in one whole token with `decimals` decimals; `10^decimals`
/// overflows 128 bits when `decimals` exceeds 38.
pub fn token_conversion_number(decimals: u8) -> (r: u128)
    requires
        decimals <= 38,
    ensures
        r == pow10(decimals as nat),
{
    proof {
        reveal_with_fuel(pow10, 39);
        assert(pow10(38) == 100000000000000000000000000000000000000nat);
    }
    let mut r: u128 = 1;
    let mut i: u8 = 0;
    while i < decimals
        invariant
            i <= decimals <= 38,
            r == pow10(i as nat),
            pow10(38) == 100000000000000000000000000000000000000nat,
        decreases decimals - i,
    {
        proof { lemma_pow10_monotone((i + 1) as nat, 38); }
        r = r * 10;
        i = i + 1;
    }
    r
}

/// Ten to any power is positive.
pub proof fn lemma_pow10_positive(n: nat)
    ensures
        pow10(n) > 0,
    decreases n,
{
    if n > 0 {
        lemma_pow10_positive((n - 1) as nat);
    }
}

} // verus!
