use vstd::prelude::*;
use crate::errors::LendingError;
use crate::structs::{
    Pubkey, LendingProtocol, OraclePriceValidator, TokenReserve, SubMarket, LendingUserAccount, LendingUserTabAccount,
    LendingUserMonthlyStatementAccount, TempOraclePriceAccount, VerifiedPriceData,
};
use crate::user_interest::{owed_interest, earned_interest};
use crate::steps::{
    Outcome, spec_step_index, spec_step_earned, spec_step_settle_tab, spec_step_rates_and_sync, spec_oracle_check, settle_tab,
    rates_and_sync, check_oracle_account, Effects,
};
use crate::oracle::{price_is_fresh, spec_price_lookup, pow10, check_token_price_staleness, get_verified_token_price,
    token_conversion_number};
use crate::validation::{
    is_program_address, token_reserve_seeds, tab_account_seeds, validate_and_return_token_reserve_account,
    validate_and_return_lending_user_tab_account,
};
use crate::liquidation::{
    Keyed, spec_check_temp, spec_check_sub_market, spec_check_statement, check_temp_price_account, check_sub_market,
    check_statement_account,
};

verus! {

/// One set of a user's accounts handed in for a health refresh: a tab, its sub market
/// and its monthly statement (each `None` when not handed in).
#[derive(Clone, Copy)]
pub struct RefreshSet {
    pub tab: Option<Keyed<LendingUserTabAccount>>,
    pub sub_market: Option<Keyed<SubMarket>>,
    pub statement: Option<Keyed<LendingUserMonthlyStatementAccount>>,
}

/// The accounts and readings a health refresh works on. `token_reserves` holds the
/// reserves handed in (`None` where one is missing), `sets` one set per tab refreshed.
pub struct RefreshUserHealthChunkAndTokenReserves {
    pub program_id: Pubkey,
    pub signer: Pubkey,
    pub lending_user_owner: Pubkey,
    pub lending_protocol: LendingProtocol,
    pub price_validator: OraclePriceValidator,
    pub lending_user_account: LendingUserAccount,
    /// The cluster's unix time stamp.
    pub time_stamp: u64,
    pub clock_slot: u64,
    pub temp_price_account: Option<Keyed<TempOraclePriceAccount>>,
    pub token_reserves: Vec<Option<Keyed<TokenReserve>>>,
    pub sets: Vec<RefreshSet>,
    pub oracle_account: Option<Pubkey>,
}

/// What stays fixed through a health refresh.
#[derive(Clone, Copy)]
pub struct RefreshParams {
    pub program_id: Pubkey,
    pub owner: Pubkey,
    pub user_account_index: u8,
    pub lending_protocol: LendingProtocol,
    pub time_stamp: u64,
    pub clock_slot: u64,
}

/// The handed-in token reserves, checked in order: each must be there and live at the
/// address of its mint.
pub open spec fn spec_check_reserves(program_id: Pubkey, s: Seq<Option<Keyed<TokenReserve>>>) -> Result<(), LendingError>
    decreases s.len(),
{
    if s.len() == 0 {
        Ok(())
    } else {
        match s[0] {
            None => Err(LendingError::MissingRemainingAccount),
            Some(k) => if !is_program_address(token_reserve_seeds(k.account.token_mint_address, k.account.bump),
                program_id, k.key) {
                Err(LendingError::UnexpectedTokenReserveAccount)
            } else {
                spec_check_reserves(program_id, s.drop_first())
            },
        }
    }
}

/// Checks the handed-in token reserves (see `spec_check_reserves`).
fn check_reserves(program_id: Pubkey, reserves: &Vec<Option<Keyed<TokenReserve>>>) -> (r: Result<(), LendingError>)
    ensures
        r == spec_check_reserves(program_id, reserves@),
{
    let ghost s = reserves@;
    let mut i: usize = 0;
    assert(s.skip(0) =~= s);
    while i < reserves.len()
        invariant
            0 <= i <= s.len(),
            s == reserves@,
            spec_check_reserves(program_id, s) == spec_check_reserves(program_id, s.skip(i as int)),
        decreases s.len() - i,
    {
        assert(s.skip(i as int).drop_first() =~= s.skip(i + 1));
        match reserves[i] {
            None => { return Err(LendingError::MissingRemainingAccount); },
            Some(k) => {
                validate_and_return_token_reserve_account(program_id, k.key, k.account)?;
            },
        }
        i = i + 1;
    }
    Ok(())
}

/// Whether entry `j` is a reserve of the token `token_id`.
pub open spec fn reserve_has(s: Seq<Option<Keyed<TokenReserve>>>, j: int, token_id: u8) -> bool {
    s[j] matches Some(k) && k.account.token_id == token_id
}

/// The first entry from `from` on that is a reserve of `token_id`.
pub open spec fn spec_find_reserve(s: Seq<Option<Keyed<TokenReserve>>>, token_id: u8, from: int) -> Option<int>
    decreases s.len() - from,
{
    if from < 0 || from >= s.len() {
        None
    } else if reserve_has(s, from, token_id) {
        Some(from)
    } else {
        spec_find_reserve(s, token_id, from + 1)
    }
}

/// Finds the first reserve of `token_id` (see `spec_find_reserve`).
fn find_reserve(reserves: &Vec<Option<Keyed<TokenReserve>>>, token_id: u8) -> (r: Option<usize>)
    ensures
        match spec_find_reserve(reserves@, token_id, 0) {
            Some(j) => r == Some(j as usize),
            None => r is None,
        },
{
    let mut j: usize = 0;
    while j < reserves.len()
        invariant
            0 <= j <= reserves.len(),
            spec_find_reserve(reserves@, token_id, 0) == spec_find_reserve(reserves@, token_id, j as int),
        decreases reserves.len() - j,
    {
        match reserves[j] {
            Some(k) => {
                if k.account.token_id == token_id {
                    return Some(j);
                }
            },
            None => {},
        }
        j = j + 1;
    }
    None
}

/// Refreshes one tab's reserve, sub market, tab and statement: the reserve's indexes
/// are advanced once per slot, the tab's interest is settled, and the rates are
/// recomputed and copied.
#[verifier::opaque]
pub open spec fn spec_refresh_accounts(
    tr: TokenReserve,
    sm: SubMarket,
    tab: LendingUserTabAccount,
    st: LendingUserMonthlyStatementAccount,
    time_stamp: u64,
    clock_slot: u64,
) -> Outcome<(TokenReserve, SubMarket, LendingUserTabAccount, LendingUserMonthlyStatementAccount)> {
    let indexed: Outcome<TokenReserve> = if tr.last_health_update_clock_slot != clock_slot {
        spec_step_index(tr, time_stamp, Some(clock_slot))
    } else {
        Outcome::Done(tr)
    };
    match indexed {
        Outcome::Fail(e) => Outcome::Fail(e),
        Outcome::Abort => Outcome::Abort,
        Outcome::Done(tr1) => match spec_step_settle_tab(tr1, sm, tab, st) {
            Outcome::Fail(e) => Outcome::Fail(e),
            Outcome::Abort => Outcome::Abort,
            Outcome::Done(s) => match spec_step_rates_and_sync(s.0, s.1, s.2) {
                Outcome::Fail(e) => Outcome::Fail(e),
                Outcome::Abort => Outcome::Abort,
                Outcome::Done(y) => Outcome::Done((y.0, y.1, y.2, s.3)),
            },
        },
    }
}

/// Refreshes one tab's accounts (see `spec_refresh_accounts`).
fn refresh_accounts(
    tr: &mut TokenReserve,
    sm: &mut SubMarket,
    tab: &mut LendingUserTabAccount,
    st: &mut LendingUserMonthlyStatementAccount,
    time_stamp: u64,
    clock_slot: u64,
) -> (r: Result<(), LendingError>)
    requires
        !(spec_refresh_accounts(*old(tr), *old(sm), *old(tab), *old(st), time_stamp, clock_slot) is Abort),
    ensures
        match spec_refresh_accounts(*old(tr), *old(sm), *old(tab), *old(st), time_stamp, clock_slot) {
            Outcome::Done(s) => r is Ok && (*final(tr), *final(sm), *final(tab), *final(st)) == s,
            Outcome::Fail(e) => r == Err::<(), LendingError>(e),
            Outcome::Abort => false,
        },
{
    proof { reveal(spec_refresh_accounts); }
    if tr.last_health_update_clock_slot != clock_slot {
        crate::interest::update_token_reserve_supply_and_borrow_interest_change_index(tr, time_stamp,
            Some(clock_slot))?;
    }
    settle_tab(tr, sm, tab, st)?;
    rates_and_sync(tr, sm, tab);
    Ok(())
}

/// The USD value (18 decimals) of `amount` of a token at `price`, truncated.
pub open spec fn amount_value(amount: u64, price: u128, conversion: nat) -> int {
    (amount * price) / conversion as int
}

/// One set of a health refresh: the tab must live at its own address and be the next
/// in order; its token's reserve must be among those handed in; its sub market and
/// statement are checked; the accounts are refreshed; and the tab's deposit and debt
/// are added, at the token's price, to the user's running totals.
#[verifier::opaque]
pub open spec fn spec_refresh_set(
    p: RefreshParams,
    prices: Seq<VerifiedPriceData>,
    ua: LendingUserAccount,
    reserves: Seq<Option<Keyed<TokenReserve>>>,
    set: RefreshSet,
) -> Outcome<(LendingUserAccount, Seq<Option<Keyed<TokenReserve>>>, RefreshSet)> {
    match set.tab {
        None => Outcome::Fail(LendingError::MissingRemainingAccount),
        Some(t) => {
            let tab = t.account;
            if !is_program_address(tab_account_seeds(tab.token_id, tab.sub_market_owner_address, tab.sub_market_index,
                p.owner, p.user_account_index, tab.bump), p.program_id, t.key) {
                Outcome::Fail(LendingError::UnexpectedTabAccount)
            } else if ua.next_tab_index_to_refresh != tab.user_tab_account_index {
                Outcome::Fail(LendingError::IncorrectOrderOfTabAccounts)
            } else {
                match spec_find_reserve(reserves, tab.token_id, 0) {
                    None => Outcome::Fail(LendingError::MissingTokenReserveAccountForRefresh),
                    Some(j) => spec_refresh_found(p, prices, ua, reserves, set, t, j),
                }
            }
        },
    }
}

/// One set of a health refresh once its tab is checked and its reserve found at `j`:
/// the sub market and statement are checked, the accounts refreshed and the values
/// added.
#[verifier::opaque]
pub open spec fn spec_refresh_found(
    p: RefreshParams,
    prices: Seq<VerifiedPriceData>,
    ua: LendingUserAccount,
    reserves: Seq<Option<Keyed<TokenReserve>>>,
    set: RefreshSet,
    t: Keyed<LendingUserTabAccount>,
    j: int,
) -> Outcome<(LendingUserAccount, Seq<Option<Keyed<TokenReserve>>>, RefreshSet)> {
    let tab = t.account;
    let rk = reserves[j]->Some_0;
    match spec_check_sub_market(p.program_id, set.sub_market, tab.token_id, tab.sub_market_owner_address,
        tab.sub_market_index) {
        Outcome::Fail(e) => Outcome::Fail(e),
        Outcome::Abort => Outcome::Abort,
        Outcome::Done(sm) => match spec_check_statement(p.program_id, set.statement, p.lending_protocol, tab.token_id,
            tab.sub_market_owner_address, tab.sub_market_index, p.owner, p.user_account_index) {
            Outcome::Fail(e) => Outcome::Fail(e),
            Outcome::Abort => Outcome::Abort,
            Outcome::Done(st) => match spec_refresh_accounts(rk.account, sm.account, tab, st.account, p.time_stamp,
                p.clock_slot) {
                Outcome::Fail(e) => Outcome::Fail(e),
                Outcome::Abort => Outcome::Abort,
                Outcome::Done(r) => spec_refresh_value(prices, ua, reserves, j, rk.key, sm.key, t.key, st.key, r),
            },
        },
    }
}

/// The last part of one set of a health refresh: the token's price must be known; the
/// tab's deposit and debt values are added to the running totals and the next tab is
/// due.
pub open spec fn spec_refresh_value(
    prices: Seq<VerifiedPriceData>,
    ua: LendingUserAccount,
    reserves: Seq<Option<Keyed<TokenReserve>>>,
    j: int,
    reserve_key: Pubkey,
    sub_market_key: Pubkey,
    tab_key: Pubkey,
    statement_key: Pubkey,
    r: (TokenReserve, SubMarket, LendingUserTabAccount, LendingUserMonthlyStatementAccount),
) -> Outcome<(LendingUserAccount, Seq<Option<Keyed<TokenReserve>>>, RefreshSet)> {
    let (tr, sm, tab, st) = r;
    match spec_price_lookup(prices, tr.token_id) {
        None => Outcome::Fail(LendingError::OraclePriceNotFound),
        Some(price) => if tr.token_decimal_amount > 38 || tab.deposited_amount * price > u128::MAX
            || tab.borrowed_amount * price > u128::MAX {
            Outcome::Abort
        } else {
            let conversion = pow10(tr.token_decimal_amount as nat);
            let dv = amount_value(tab.deposited_amount, price, conversion);
            let bv = amount_value(tab.borrowed_amount, price, conversion);
            if ua.temp_deposit_usd_value + dv > u128::MAX || ua.temp_borrow_usd_value + bv > u128::MAX
                || ua.next_tab_index_to_refresh + 1 > u8::MAX {
                Outcome::Abort
            } else {
                Outcome::Done((
                    LendingUserAccount {
                        temp_deposit_usd_value: (ua.temp_deposit_usd_value + dv) as u128,
                        temp_borrow_usd_value: (ua.temp_borrow_usd_value + bv) as u128,
                        next_tab_index_to_refresh: (ua.next_tab_index_to_refresh + 1) as u8,
                        ..ua
                    },
                    reserves.update(j, Some(Keyed { key: reserve_key, account: tr })),
                    RefreshSet {
                        tab: Some(Keyed { key: tab_key, account: tab }),
                        sub_market: Some(Keyed { key: sub_market_key, account: sm }),
                        statement: Some(Keyed { key: statement_key, account: st }),
                    },
                ))
            }
        },
    }
}

/// The entry a search for a reserve finds is a reserve of that token.
proof fn lemma_find_reserve(s: Seq<Option<Keyed<TokenReserve>>>, token_id: u8, from: int)
    requires
        spec_find_reserve(s, token_id, from) is Some,
    ensures
        ({
            let j = spec_find_reserve(s, token_id, from)->0;
            0 <= j < s.len() && reserve_has(s, j, token_id)
        }),
    decreases s.len() - from,
{
    if from >= 0 && from < s.len() && !reserve_has(s, from, token_id) {
        lemma_find_reserve(s, token_id, from + 1);
    }
}

/// Refreshes one set (see `spec_refresh_set`).
fn refresh_set(
    p: RefreshParams,
    prices: &[VerifiedPriceData],
    ua: &mut LendingUserAccount,
    reserves: &mut Vec<Option<Keyed<TokenReserve>>>,
    set: RefreshSet,
) -> (r: Result<RefreshSet, LendingError>)
    requires
        !(spec_refresh_set(p, prices@, *old(ua), old(reserves)@, set) is Abort),
    ensures
        match spec_refresh_set(p, prices@, *old(ua), old(reserves)@, set) {
            Outcome::Done(q) => r matches Ok(v) && *final(ua) == q.0 && final(reserves)@ == q.1 && v == q.2,
            Outcome::Fail(e) => r matches Err(f) && f == e,
            Outcome::Abort => false,
        },
{
    proof { reveal(spec_refresh_set); }
    let t = match set.tab {
        None => { return Err(LendingError::MissingRemainingAccount); },
        Some(t) => t,
    };
    let tab0 = t.account;
    validate_and_return_lending_user_tab_account(p.program_id, t.key, tab0, tab0.token_id,
        tab0.sub_market_owner_address, tab0.sub_market_index, p.owner, p.user_account_index)?;
    if ua.next_tab_index_to_refresh != tab0.user_tab_account_index {
        return Err(LendingError::IncorrectOrderOfTabAccounts);
    }
    let j = match find_reserve(reserves, tab0.token_id) {
        None => { return Err(LendingError::MissingTokenReserveAccountForRefresh); },
        Some(j) => j,
    };
    proof {
        lemma_find_reserve(reserves@, tab0.token_id, 0);
        assert(reserves@.len() == reserves.len());
    }
    refresh_found(p, prices, ua, reserves, set, t, j)
}

/// One set of a health refresh once its reserve is found (see `spec_refresh_found`).
fn refresh_found(
    p: RefreshParams,
    prices: &[VerifiedPriceData],
    ua: &mut LendingUserAccount,
    reserves: &mut Vec<Option<Keyed<TokenReserve>>>,
    set: RefreshSet,
    t: Keyed<LendingUserTabAccount>,
    j: usize,
) -> (r: Result<RefreshSet, LendingError>)
    requires
        j < old(reserves)@.len(),
        old(reserves)@[j as int] is Some,
        !(spec_refresh_found(p, prices@, *old(ua), old(reserves)@, set, t, j as int) is Abort),
    ensures
        match spec_refresh_found(p, prices@, *old(ua), old(reserves)@, set, t, j as int) {
            Outcome::Done(q) => r matches Ok(v) && *final(ua) == q.0 && final(reserves)@ == q.1 && v == q.2,
            Outcome::Fail(e) => r matches Err(f) && f == e,
            Outcome::Abort => false,
        },
{
    proof { reveal(spec_refresh_found); }
    let tab0 = t.account;
    let rk = match reserves[j] {
        Some(k) => k,
        None => { return Err(LendingError::MissingTokenReserveAccountForRefresh); },
    };
    let sm = check_sub_market(p.program_id, set.sub_market, tab0.token_id, tab0.sub_market_owner_address,
        tab0.sub_market_index)?;
    let st = check_statement_account(p.program_id, set.statement, &p.lending_protocol, tab0.token_id,
        tab0.sub_market_owner_address, tab0.sub_market_index, p.owner, p.user_account_index)?;
    let mut tr = rk.account;
    let mut sub_market = sm.account;
    let mut tab = tab0;
    let mut statement = st.account;
    refresh_accounts(&mut tr, &mut sub_market, &mut tab, &mut statement, p.time_stamp, p.clock_slot)?;
    let price = get_verified_token_price(prices, tr.token_id)?;
    let conversion = token_conversion_number(tr.token_decimal_amount);
    proof { crate::oracle::lemma_pow10_positive(tr.token_decimal_amount as nat); }
    let deposit_value = (tab.deposited_amount as u128 * price) / conversion;
    let borrow_value = (tab.borrowed_amount as u128 * price) / conversion;
    ua.temp_deposit_usd_value = ua.temp_deposit_usd_value + deposit_value;
    ua.temp_borrow_usd_value = ua.temp_borrow_usd_value + borrow_value;
    ua.next_tab_index_to_refresh = ua.next_tab_index_to_refresh + 1;
    reserves.set(j, Some(Keyed { key: rk.key, account: tr }));
    Ok(RefreshSet {
        tab: Some(Keyed { key: t.key, account: tab }),
        sub_market: Some(Keyed { key: sm.key, account: sub_market }),
        statement: Some(Keyed { key: st.key, account: statement }),
    })
}

/// The first `n` sets of a health refresh, processed in order from the user account
/// `ua`, the reserves and the sets as handed in; each processed set is replaced by its
/// refreshed accounts.
pub open spec fn spec_refresh_sets(
    p: RefreshParams,
    prices: Seq<VerifiedPriceData>,
    ua: LendingUserAccount,
    reserves: Seq<Option<Keyed<TokenReserve>>>,
    sets: Seq<RefreshSet>,
    n: nat,
) -> Outcome<(LendingUserAccount, Seq<Option<Keyed<TokenReserve>>>, Seq<RefreshSet>)>
    decreases n,
{
    if n == 0 {
        Outcome::Done((ua, reserves, sets))
    } else {
        match spec_refresh_sets(p, prices, ua, reserves, sets, (n - 1) as nat) {
            Outcome::Fail(e) => Outcome::Fail(e),
            Outcome::Abort => Outcome::Abort,
            Outcome::Done(s) => if n - 1 < sets.len() {
                match spec_refresh_set(p, prices, s.0, s.1, sets[n - 1]) {
                    Outcome::Fail(e) => Outcome::Fail(e),
                    Outcome::Abort => Outcome::Abort,
                    Outcome::Done(q) => Outcome::Done((q.0, q.1, s.2.update(n - 1, q.2))),
                }
            } else {
                Outcome::Done(s)
            },
        }
    }
}

/// Once a refresh has failed or aborted, processing more sets does not change that.
proof fn lemma_refresh_sets_stuck(
    p: RefreshParams,
    prices: Seq<VerifiedPriceData>,
    ua: LendingUserAccount,
    reserves: Seq<Option<Keyed<TokenReserve>>>,
    sets: Seq<RefreshSet>,
    n: nat,
    m: nat,
)
    requires
        n <= m,
        !(spec_refresh_sets(p, prices, ua, reserves, sets, n) is Done),
    ensures
        spec_refresh_sets(p, prices, ua, reserves, sets, m) == spec_refresh_sets(p, prices, ua, reserves, sets, n),
    decreases m - n,
{
    if n < m {
        lemma_refresh_sets_stuck(p, prices, ua, reserves, sets, n, (m - 1) as nat);
    }
}

/// Refreshes every set in order (see `spec_refresh_sets`).
fn refresh_sets(
    p: RefreshParams,
    prices: &[VerifiedPriceData],
    ua: &mut LendingUserAccount,
    reserves: &mut Vec<Option<Keyed<TokenReserve>>>,
    sets: &mut Vec<RefreshSet>,
) -> (r: Result<(), LendingError>)
    requires
        !(spec_refresh_sets(p, prices@, *old(ua), old(reserves)@, old(sets)@, old(sets)@.len()) is Abort),
    ensures
        match spec_refresh_sets(p, prices@, *old(ua), old(reserves)@, old(sets)@, old(sets)@.len()) {
            Outcome::Done(q) => r is Ok && *final(ua) == q.0 && final(reserves)@ == q.1 && final(sets)@ == q.2,
            Outcome::Fail(e) => r matches Err(f) && f == e,
            Outcome::Abort => false,
        },
{
    let ghost ua0 = *ua;
    let ghost reserves0 = reserves@;
    let ghost sets0 = sets@;
    let n = sets.len();
    let mut i: usize = 0;
    while i < n
        invariant
            0 <= i <= n,
            n == sets0.len(),
            ua0 == *old(ua),
            reserves0 == old(reserves)@,
            sets0 == old(sets)@,
            sets@.len() == n,
            forall|k: int| i <= k < n ==> sets@[k] == sets0[k],
            spec_refresh_sets(p, prices@, ua0, reserves0, sets0, i as nat) == Outcome::Done((*ua, reserves@, sets@)),
            !(spec_refresh_sets(p, prices@, ua0, reserves0, sets0, n as nat) is Abort),
        decreases n - i,
    {
        let set = sets[i];
        proof {
            assert(((i + 1) as nat - 1) as nat == i as nat);
            assert(set == sets0[i as int]);
            if !(spec_refresh_sets(p, prices@, ua0, reserves0, sets0, (i + 1) as nat) is Done) {
                lemma_refresh_sets_stuck(p, prices@, ua0, reserves0, sets0, (i + 1) as nat, n as nat);
            }
        }
        let ghost ua_i = *ua;
        let ghost reserves_i = reserves@;
        let ghost sets_i = sets@;
        let refreshed_set = match refresh_set(p, prices, ua, reserves, set) {
            Ok(v) => v,
            Err(e) => {
                proof {
                    assert(spec_refresh_set(p, prices@, ua_i, reserves_i, set) == Outcome::<(LendingUserAccount,
                        Seq<Option<Keyed<TokenReserve>>>, RefreshSet)>::Fail(e));
                    assert(spec_refresh_sets(p, prices@, ua0, reserves0, sets0, (i + 1) as nat) == Outcome::<(
                        LendingUserAccount, Seq<Option<Keyed<TokenReserve>>>, Seq<RefreshSet>)>::Fail(e));
                    lemma_refresh_sets_stuck(p, prices@, ua0, reserves0, sets0, (i + 1) as nat, n as nat);
                }
                return Err(e);
            },
        };
        sets.set(i, refreshed_set);
        i = i + 1;
    }
    Ok(())
}

/// A user account with a new refresh begun when the last one was in another slot: the
/// running totals and the tab to start from are cleared.
pub open spec fn spec_begin_refresh(ua: LendingUserAccount, clock_slot: u64) -> LendingUserAccount {
    if ua.refresh_clock_slot != clock_slot {
        LendingUserAccount {
            temp_deposit_usd_value: 0,
            temp_borrow_usd_value: 0,
            next_tab_index_to_refresh: 0,
            refresh_clock_slot: clock_slot,
            ..ua
        }
    } else {
        ua
    }
}

/// A user account after a chunk of a refresh: once every tab is covered, the running
/// totals become the account's totals and its health is of this slot.
pub open spec fn spec_finish_refresh(ua: LendingUserAccount, clock_slot: u64) -> LendingUserAccount {
    if ua.next_tab_index_to_refresh == ua.tab_account_count {
        LendingUserAccount {
            total_deposited_usd_value: ua.temp_deposit_usd_value,
            total_borrowed_usd_value: ua.temp_borrow_usd_value,
            last_health_update_clock_slot: clock_slot,
            ..ua
        }
    } else {
        ua
    }
}

/// The fixed parts of a refresh of `c` for the account index `user_account_index`.
pub open spec fn refresh_params(c: RefreshUserHealthChunkAndTokenReserves, user_account_index: u8) -> RefreshParams {
    RefreshParams {
        program_id: c.program_id,
        owner: c.lending_user_owner,
        user_account_index: user_account_index,
        lending_protocol: c.lending_protocol,
        time_stamp: c.time_stamp,
        clock_slot: c.clock_slot,
    }
}

/// A chunk of a user's health refresh: nothing is done when the health is already of
/// this slot; otherwise a refresh is begun in a new slot, the price data must be the
/// signer's and fresh, the token reserves handed in are checked, the sets are refreshed
/// in order, the refresh is finished when every tab is covered, and the oracle's account
/// is checked when the price account is to be closed. The result is the user account,
/// the reserves, the sets and what is left to carry out.
pub open spec fn spec_refresh_user_health(c: RefreshUserHealthChunkAndTokenReserves, user_account_index: u8, close_price_account: bool)
    -> Outcome<(LendingUserAccount, Seq<Option<Keyed<TokenReserve>>>, Seq<RefreshSet>, Effects)> {
    let ua = c.lending_user_account;
    let none = Effects { into_reserve: None, out_of_reserve: None, refund_oracle_fees: false };
    if ua.last_health_update_clock_slot == c.clock_slot {
        Outcome::Done((ua, c.token_reserves@, c.sets@, none))
    } else {
        match spec_check_temp(c.program_id, c.temp_price_account, c.signer) {
            Outcome::Fail(e) => Outcome::Fail(e),
            Outcome::Abort => Outcome::Abort,
            Outcome::Done(temp) => if !price_is_fresh(temp.account.slot, c.clock_slot) {
                Outcome::Fail(LendingError::OracleDataStale)
            } else {
                match spec_check_reserves(c.program_id, c.token_reserves@) {
                    Err(e) => Outcome::Fail(e),
                    Ok(_) => match spec_refresh_sets(refresh_params(c, user_account_index), temp.account.data@,
                        spec_begin_refresh(ua, c.clock_slot), c.token_reserves@, c.sets@, c.sets@.len()) {
                        Outcome::Fail(e) => Outcome::Fail(e),
                        Outcome::Abort => Outcome::Abort,
                        Outcome::Done(s) => {
                            let ua2 = spec_finish_refresh(s.0, c.clock_slot);
                            if close_price_account {
                                match spec_oracle_check(c.oracle_account, c.price_validator.address) {
                                    Err(e) => Outcome::Fail(e),
                                    Ok(_) => Outcome::Done((ua2, s.1, s.2, Effects { refund_oracle_fees: true, ..none })),
                                }
                            } else {
                                Outcome::Done((ua2, s.1, s.2, none))
                            }
                        },
                    },
                }
            },
        }
    }
}

/// `q` is `c` with the user account, the reserves and the sets replaced by those of `p`.
pub open spec fn refreshed(
    c: RefreshUserHealthChunkAndTokenReserves,
    q: RefreshUserHealthChunkAndTokenReserves,
    p: (LendingUserAccount, Seq<Option<Keyed<TokenReserve>>>, Seq<RefreshSet>, Effects),
) -> bool {
    &&& q == (RefreshUserHealthChunkAndTokenReserves {
        lending_user_account: p.0,
        token_reserves: q.token_reserves,
        sets: q.sets,
        ..c
    })
    &&& q.token_reserves@ == p.1
    &&& q.sets@ == p.2
}

/// Refreshes a chunk of a user's health and the token reserves it touches (see
/// `spec_refresh_user_health`).
pub fn refresh_user_health_chunk_and_token_reserves(
    ctx: RefreshUserHealthChunkAndTokenReserves,
    user_account_index: u8,
    close_price_account: bool,
) -> (r: Result<(RefreshUserHealthChunkAndTokenReserves, Effects), LendingError>)
    requires
        !(spec_refresh_user_health(ctx, user_account_index, close_price_account) is Abort),
    ensures
        match spec_refresh_user_health(ctx, user_account_index, close_price_account) {
            Outcome::Done(p) => r matches Ok(q) && refreshed(ctx, q.0, p) && q.1 == p.3,
            Outcome::Fail(e) => r matches Err(f) && f == e,
            Outcome::Abort => false,
        },
{
    let none = Effects { into_reserve: None, out_of_reserve: None, refund_oracle_fees: false };
    if ctx.lending_user_account.last_health_update_clock_slot == ctx.clock_slot {
        return Ok((ctx, none));
    }
    let params = RefreshParams {
        program_id: ctx.program_id,
        owner: ctx.lending_user_owner,
        user_account_index: user_account_index,
        lending_protocol: ctx.lending_protocol,
        time_stamp: ctx.time_stamp,
        clock_slot: ctx.clock_slot,
    };
    let RefreshUserHealthChunkAndTokenReserves {
        program_id,
        signer,
        lending_user_owner,
        lending_protocol,
        price_validator,
        lending_user_account,
        time_stamp,
        clock_slot,
        temp_price_account,
        token_reserves,
        sets,
        oracle_account,
    } = ctx;
    let mut ua = lending_user_account;
    if ua.refresh_clock_slot != clock_slot {
        ua.temp_deposit_usd_value = 0;
        ua.temp_borrow_usd_value = 0;
        ua.next_tab_index_to_refresh = 0;
        ua.refresh_clock_slot = clock_slot;
    }
    check_temp_price_account(program_id, &temp_price_account, signer)?;
    let prices = match &temp_price_account {
        Some(k) => {
            check_token_price_staleness(k.account.slot, clock_slot)?;
            k.account.data.as_slice()
        },
        None => { return Err(LendingError::MissingRemainingAccount); },
    };
    check_reserves(program_id, &token_reserves)?;
    let mut reserves = token_reserves;
    let mut sets = sets;
    refresh_sets(params, prices, &mut ua, &mut reserves, &mut sets)?;
    if ua.next_tab_index_to_refresh == ua.tab_account_count {
        ua.total_deposited_usd_value = ua.temp_deposit_usd_value;
        ua.total_borrowed_usd_value = ua.temp_borrow_usd_value;
        ua.last_health_update_clock_slot = clock_slot;
    }
    let mut effects = none;
    if close_price_account {
        check_oracle_account(oracle_account, price_validator.address)?;
        effects.refund_oracle_fees = true;
    }
    Ok((RefreshUserHealthChunkAndTokenReserves {
        program_id: program_id,
        signer: signer,
        lending_user_owner: lending_user_owner,
        lending_protocol: lending_protocol,
        price_validator: price_validator,
        lending_user_account: ua,
        time_stamp: time_stamp,
        clock_slot: clock_slot,
        temp_price_account: temp_price_account,
        token_reserves: reserves,
        sets: sets,
        oracle_account: oracle_account,
    }, effects))
}

/// Each set a refresh chunk covers moves the user account on by one tab and only adds
/// to its running totals; nothing else of the account changes, and the reserves and
/// sets keep their number.
pub proof fn law_refresh_chunk_advances(
    p: RefreshParams,
    prices: Seq<VerifiedPriceData>,
    ua: LendingUserAccount,
    reserves: Seq<Option<Keyed<TokenReserve>>>,
    sets: Seq<RefreshSet>,
    n: nat,
)
    requires
        n <= sets.len(),
        spec_refresh_sets(p, prices, ua, reserves, sets, n) is Done,
    ensures
        ({
            let s = spec_refresh_sets(p, prices, ua, reserves, sets, n)->Done_0;
            &&& s.0.next_tab_index_to_refresh == ua.next_tab_index_to_refresh + n
            &&& s.0.temp_deposit_usd_value >= ua.temp_deposit_usd_value
            &&& s.0.temp_borrow_usd_value >= ua.temp_borrow_usd_value
            &&& s.0 == (LendingUserAccount {
                temp_deposit_usd_value: s.0.temp_deposit_usd_value,
                temp_borrow_usd_value: s.0.temp_borrow_usd_value,
                next_tab_index_to_refresh: s.0.next_tab_index_to_refresh,
                ..ua
            })
            &&& s.1.len() == reserves.len()
            &&& s.2.len() == sets.len()
        }),
    decreases n,
{
    if n > 0 {
        law_refresh_chunk_advances(p, prices, ua, reserves, sets, (n - 1) as nat);
        let s = spec_refresh_sets(p, prices, ua, reserves, sets, (n - 1) as nat)->Done_0;
        lemma_refresh_set_advances(p, prices, s.0, s.1, sets[n - 1]);
    }
}

/// One set of a refresh moves the user account on by one tab and only adds to its
/// running totals.
proof fn lemma_refresh_set_advances(
    p: RefreshParams,
    prices: Seq<VerifiedPriceData>,
    ua: LendingUserAccount,
    reserves: Seq<Option<Keyed<TokenReserve>>>,
    set: RefreshSet,
)
    requires
        spec_refresh_set(p, prices, ua, reserves, set) is Done,
    ensures
        ({
            let q = spec_refresh_set(p, prices, ua, reserves, set)->Done_0;
            &&& q.0.next_tab_index_to_refresh == ua.next_tab_index_to_refresh + 1
            &&& q.0.temp_deposit_usd_value >= ua.temp_deposit_usd_value
            &&& q.0.temp_borrow_usd_value >= ua.temp_borrow_usd_value
            &&& q.0 == (LendingUserAccount {
                temp_deposit_usd_value: q.0.temp_deposit_usd_value,
                temp_borrow_usd_value: q.0.temp_borrow_usd_value,
                next_tab_index_to_refresh: q.0.next_tab_index_to_refresh,
                ..ua
            })
            &&& q.1.len() == reserves.len()
        }),
{
    reveal(spec_refresh_set);
    reveal(spec_refresh_found);
    let t = set.tab->0;
    let tab = t.account;
    lemma_find_reserve(reserves, tab.token_id, 0);
    let j = spec_find_reserve(reserves, tab.token_id, 0)->0;
    let rk = reserves[j]->Some_0;
    let sm = spec_check_sub_market(p.program_id, set.sub_market, tab.token_id, tab.sub_market_owner_address,
        tab.sub_market_index)->Done_0;
    let st = spec_check_statement(p.program_id, set.statement, p.lending_protocol, tab.token_id,
        tab.sub_market_owner_address, tab.sub_market_index, p.owner, p.user_account_index)->Done_0;
    let r = spec_refresh_accounts(rk.account, sm.account, tab, st.account, p.time_stamp, p.clock_slot)->Done_0;
    crate::oracle::lemma_pow10_positive(r.0.token_decimal_amount as nat);
    let price = spec_price_lookup(prices, r.0.token_id)->0;
    let conversion = pow10(r.0.token_decimal_amount as nat);
    assert(amount_value(r.2.deposited_amount, price, conversion) >= 0) by (nonlinear_arith)
        requires
            conversion > 0,
    {
    }
    assert(amount_value(r.2.borrowed_amount, price, conversion) >= 0) by (nonlinear_arith)
        requires
            conversion > 0,
    {
    }
}

/// A refresh chunk in a slot where the user's health is already current changes
/// nothing. Otherwise the refresh is of this slot, the chunk moves the account on by
/// one tab per set, and the health becomes current exactly when every tab is covered;
/// the account's totals are then the running totals.
pub proof fn law_refresh_user_health(c: RefreshUserHealthChunkAndTokenReserves, user_account_index: u8,
    close_price_account: bool)
    requires
        spec_refresh_user_health(c, user_account_index, close_price_account) is Done,
    ensures
        ({
            let q = spec_refresh_user_health(c, user_account_index, close_price_account)->Done_0;
            let ua = c.lending_user_account;
            &&& ua.last_health_update_clock_slot == c.clock_slot ==> q.0 == ua && q.1 == c.token_reserves@
                && q.2 == c.sets@
            &&& ua.last_health_update_clock_slot != c.clock_slot ==> {
                &&& q.0.refresh_clock_slot == c.clock_slot
                &&& q.0.next_tab_index_to_refresh == spec_begin_refresh(ua, c.clock_slot).next_tab_index_to_refresh
                    + c.sets@.len()
                &&& (q.0.last_health_update_clock_slot == c.clock_slot <==> q.0.next_tab_index_to_refresh
                    == q.0.tab_account_count)
                &&& q.0.last_health_update_clock_slot == c.clock_slot ==> q.0.total_deposited_usd_value
                    == q.0.temp_deposit_usd_value && q.0.total_borrowed_usd_value == q.0.temp_borrow_usd_value
            }
        }),
{
    let ua = c.lending_user_account;
    if ua.last_health_update_clock_slot != c.clock_slot {
        let temp = c.temp_price_account->0;
        law_refresh_chunk_advances(refresh_params(c, user_account_index), temp.account.data@,
            spec_begin_refresh(ua, c.clock_slot), c.token_reserves@, c.sets@, c.sets@.len());
    }
}

/// The reserves `a` and `b` hold a reserve at the same places, of the same tokens and
/// decimals.
pub open spec fn same_reserve_tokens(a: Seq<Option<Keyed<TokenReserve>>>, b: Seq<Option<Keyed<TokenReserve>>>)
    -> bool {
    &&& a.len() == b.len()
    &&& forall|k: int| 0 <= k < a.len() ==> (#[trigger] a[k] is Some <==> b[k] is Some)
    &&& forall|k: int| 0 <= k < a.len() && a[k] is Some ==> {
        &&& (#[trigger] a[k])->Some_0.account.token_id == b[k]->Some_0.account.token_id
        &&& a[k]->Some_0.account.token_decimal_amount == b[k]->Some_0.account.token_decimal_amount
    }
}

/// The deposit and debt values a refreshed set adds to a user's running totals: its
/// tab's deposit and debt at its token's price, with the decimals of its token's reserve
/// among `reserves`.
pub open spec fn set_values(prices: Seq<VerifiedPriceData>, reserves: Seq<Option<Keyed<TokenReserve>>>, set: RefreshSet)
    -> (int, int) {
    match set.tab {
        Some(t) => match spec_find_reserve(reserves, t.account.token_id, 0) {
            Some(j) => {
                let conversion = pow10(reserves[j]->Some_0.account.token_decimal_amount as nat);
                let price = spec_price_lookup(prices, t.account.token_id)->0;
                (amount_value(t.account.deposited_amount, price, conversion),
                    amount_value(t.account.borrowed_amount, price, conversion))
            },
            None => (0, 0),
        },
        None => (0, 0),
    }
}

/// The sums of the values of the first `n` sets (see `set_values`).
pub open spec fn sets_values(prices: Seq<VerifiedPriceData>, reserves: Seq<Option<Keyed<TokenReserve>>>,
    sets: Seq<RefreshSet>, n: nat) -> (int, int)
    decreases n,
{
    if n == 0 {
        (0, 0)
    } else {
        let a = sets_values(prices, reserves, sets, (n - 1) as nat);
        let v = set_values(prices, reserves, sets[n - 1]);
        (a.0 + v.0, a.1 + v.1)
    }
}

/// A search for a reserve finds the same place among reserves of the same tokens.
proof fn lemma_find_reserve_same(a: Seq<Option<Keyed<TokenReserve>>>, b: Seq<Option<Keyed<TokenReserve>>>,
    token_id: u8, from: int)
    requires
        same_reserve_tokens(a, b),
    ensures
        spec_find_reserve(a, token_id, from) == spec_find_reserve(b, token_id, from),
    decreases a.len() - from,
{
    if 0 <= from < a.len() {
        assert(a[from] is Some <==> b[from] is Some);
        lemma_find_reserve_same(a, b, token_id, from + 1);
    }
}

/// The sums of set values depend only on the reserves' tokens and decimals and on the
/// first `n` sets.
proof fn lemma_sets_values_same(prices: Seq<VerifiedPriceData>, a: Seq<Option<Keyed<TokenReserve>>>,
    b: Seq<Option<Keyed<TokenReserve>>>, sa: Seq<RefreshSet>, sb: Seq<RefreshSet>, n: nat)
    requires
        same_reserve_tokens(a, b),
        n <= sa.len(),
        n <= sb.len(),
        forall|i: int| 0 <= i < n ==> sa[i] == sb[i],
    ensures
        sets_values(prices, a, sa, n) == sets_values(prices, b, sb, n),
    decreases n,
{
    if n > 0 {
        lemma_sets_values_same(prices, a, b, sa, sb, (n - 1) as nat);
        let set = sa[n - 1];
        assert(sb[n - 1] == set);
        if let Some(t) = set.tab {
            lemma_find_reserve_same(a, b, t.account.token_id, 0);
            if let Some(j) = spec_find_reserve(a, t.account.token_id, 0) {
                lemma_find_reserve(a, t.account.token_id, 0);
                assert(a[j] is Some);
            }
        }
    }
}

/// Refreshing one tab's accounts keeps the reserve's token and decimals and the tab's
/// token.
proof fn lemma_refresh_accounts_tokens(tr: TokenReserve, sm: SubMarket, tab: LendingUserTabAccount,
    st: LendingUserMonthlyStatementAccount, time_stamp: u64, clock_slot: u64)
    requires
        spec_refresh_accounts(tr, sm, tab, st, time_stamp, clock_slot) is Done,
    ensures
        ({
            let r = spec_refresh_accounts(tr, sm, tab, st, time_stamp, clock_slot)->Done_0;
            &&& r.0.token_id == tr.token_id
            &&& r.0.token_decimal_amount == tr.token_decimal_amount
            &&& r.2.token_id == tab.token_id
        }),
{
    reveal(spec_refresh_accounts);
}

/// One set of a refresh keeps the reserves' tokens and decimals and adds exactly the
/// values of its refreshed tab to the running totals.
proof fn lemma_refresh_set_values(
    p: RefreshParams,
    prices: Seq<VerifiedPriceData>,
    ua: LendingUserAccount,
    reserves: Seq<Option<Keyed<TokenReserve>>>,
    set: RefreshSet,
)
    requires
        spec_refresh_set(p, prices, ua, reserves, set) is Done,
    ensures
        ({
            let q = spec_refresh_set(p, prices, ua, reserves, set)->Done_0;
            let v = set_values(prices, q.1, q.2);
            &&& same_reserve_tokens(reserves, q.1)
            &&& q.0.temp_deposit_usd_value == ua.temp_deposit_usd_value + v.0
            &&& q.0.temp_borrow_usd_value == ua.temp_borrow_usd_value + v.1
        }),
{
    reveal(spec_refresh_set);
    reveal(spec_refresh_found);
    let t = set.tab->0;
    let tab = t.account;
    lemma_find_reserve(reserves, tab.token_id, 0);
    let j = spec_find_reserve(reserves, tab.token_id, 0)->0;
    let rk = reserves[j]->Some_0;
    let sm = spec_check_sub_market(p.program_id, set.sub_market, tab.token_id, tab.sub_market_owner_address,
        tab.sub_market_index)->Done_0;
    let st = spec_check_statement(p.program_id, set.statement, p.lending_protocol, tab.token_id,
        tab.sub_market_owner_address, tab.sub_market_index, p.owner, p.user_account_index)->Done_0;
    lemma_refresh_accounts_tokens(rk.account, sm.account, tab, st.account, p.time_stamp, p.clock_slot);
    let r = spec_refresh_accounts(rk.account, sm.account, tab, st.account, p.time_stamp, p.clock_slot)->Done_0;
    let q = spec_refresh_set(p, prices, ua, reserves, set)->Done_0;
    assert(q.1 == reserves.update(j, Some(Keyed { key: rk.key, account: r.0 })));
    assert(same_reserve_tokens(reserves, q.1));
    lemma_find_reserve_same(reserves, q.1, tab.token_id, 0);
    assert(q.2.tab == Some(Keyed { key: t.key, account: r.2 }));
    assert(spec_find_reserve(q.1, r.2.token_id, 0) == Some(j));
    assert(q.1[j]->Some_0.account == r.0);
    let price = spec_price_lookup(prices, r.0.token_id)->0;
    let conversion = pow10(r.0.token_decimal_amount as nat);
    assert(set_values(prices, q.1, q.2) == (amount_value(r.2.deposited_amount, price, conversion),
        amount_value(r.2.borrowed_amount, price, conversion)));
    crate::oracle::lemma_pow10_positive(r.0.token_decimal_amount as nat);
    assert(amount_value(r.2.deposited_amount, price, conversion) >= 0) by (nonlinear_arith)
        requires
            conversion > 0,
    {
    }
    assert(amount_value(r.2.borrowed_amount, price, conversion) >= 0) by (nonlinear_arith)
        requires
            conversion > 0,
    {
    }
    assert(q.0.temp_deposit_usd_value == ua.temp_deposit_usd_value + amount_value(r.2.deposited_amount, price,
        conversion));
    assert(q.0.temp_borrow_usd_value == ua.temp_borrow_usd_value + amount_value(r.2.borrowed_amount, price,
        conversion));
}

/// The sets a refresh chunk covers keep the reserves' tokens and decimals and add
/// exactly their refreshed tabs' values to the running totals.
proof fn lemma_refresh_sets_values(
    p: RefreshParams,
    prices: Seq<VerifiedPriceData>,
    ua: LendingUserAccount,
    reserves: Seq<Option<Keyed<TokenReserve>>>,
    sets: Seq<RefreshSet>,
    n: nat,
)
    requires
        n <= sets.len(),
        spec_refresh_sets(p, prices, ua, reserves, sets, n) is Done,
    ensures
        ({
            let s = spec_refresh_sets(p, prices, ua, reserves, sets, n)->Done_0;
            let v = sets_values(prices, s.1, s.2, n);
            &&& same_reserve_tokens(reserves, s.1)
            &&& s.2.len() == sets.len()
            &&& s.0.temp_deposit_usd_value == ua.temp_deposit_usd_value + v.0
            &&& s.0.temp_borrow_usd_value == ua.temp_borrow_usd_value + v.1
        }),
    decreases n,
{
    if n > 0 {
        lemma_refresh_sets_values(p, prices, ua, reserves, sets, (n - 1) as nat);
        let s = spec_refresh_sets(p, prices, ua, reserves, sets, (n - 1) as nat)->Done_0;
        lemma_refresh_set_values(p, prices, s.0, s.1, sets[n - 1]);
        let q = spec_refresh_set(p, prices, s.0, s.1, sets[n - 1])->Done_0;
        let s2 = s.2.update(n - 1, q.2);
        lemma_sets_values_same(prices, s.1, q.1, s.2, s2, (n - 1) as nat);
        assert(s2[n - 1] == q.2);
    }
}

/// A refresh chunk adds to the user's running totals exactly the values of the tabs it
/// refreshes, each tab's deposit and debt at its token's price with its reserve's
/// decimals; a refresh begun in a new slot starts its running totals from zero, one
/// continued in the same slot keeps them; and when the chunk covers the last tab, the
/// account's totals become the running totals and its health is of this slot. Over the
/// chunks of one slot that cover every tab in order, the totals are therefore the sums
/// of the values of all the user's tabs.
pub proof fn law_refresh_totals(c: RefreshUserHealthChunkAndTokenReserves, user_account_index: u8,
    close_price_account: bool)
    requires
        spec_refresh_user_health(c, user_account_index, close_price_account) is Done,
        c.lending_user_account.last_health_update_clock_slot != c.clock_slot,
    ensures
        ({
            let q = spec_refresh_user_health(c, user_account_index, close_price_account)->Done_0;
            let ua = c.lending_user_account;
            let prices = (c.temp_price_account->0).account.data@;
            let v = sets_values(prices, q.1, q.2, c.sets@.len());
            let d0: int = if ua.refresh_clock_slot == c.clock_slot { ua.temp_deposit_usd_value as int } else { 0 };
            let b0: int = if ua.refresh_clock_slot == c.clock_slot { ua.temp_borrow_usd_value as int } else { 0 };
            &&& q.0.temp_deposit_usd_value == d0 + v.0
            &&& q.0.temp_borrow_usd_value == b0 + v.1
            &&& q.0.tab_account_count == ua.tab_account_count
            &&& q.0.next_tab_index_to_refresh == q.0.tab_account_count ==> {
                &&& q.0.total_deposited_usd_value == d0 + v.0
                &&& q.0.total_borrowed_usd_value == b0 + v.1
                &&& q.0.last_health_update_clock_slot == c.clock_slot
            }
            &&& q.0.next_tab_index_to_refresh != q.0.tab_account_count ==> {
                &&& q.0.total_deposited_usd_value == ua.total_deposited_usd_value
                &&& q.0.total_borrowed_usd_value == ua.total_borrowed_usd_value
                &&& q.0.last_health_update_clock_slot == ua.last_health_update_clock_slot
            }
        }),
{
    let ua = c.lending_user_account;
    let temp = c.temp_price_account->0;
    let b = spec_begin_refresh(ua, c.clock_slot);
    lemma_refresh_sets_values(refresh_params(c, user_account_index), temp.account.data@, b, c.token_reserves@,
        c.sets@, c.sets@.len());
    law_refresh_chunk_advances(refresh_params(c, user_account_index), temp.account.data@, b, c.token_reserves@,
        c.sets@, c.sets@.len());
}

/// What chunk `i` of a sequence of refresh calls returns.
pub open spec fn chunk_output(cs: Seq<RefreshUserHealthChunkAndTokenReserves>, closes: Seq<bool>,
    user_account_index: u8, i: int) -> (LendingUserAccount, Seq<Option<Keyed<TokenReserve>>>, Seq<RefreshSet>, Effects) {
    spec_refresh_user_health(cs[i], user_account_index, closes[i])->Done_0
}

/// The sums of the values of the tabs refreshed by the first `k` chunks of a sequence of
/// refresh calls, each tab's deposit and debt at its token's price with its reserve's
/// decimals (see `set_values`).
pub open spec fn chunks_values(cs: Seq<RefreshUserHealthChunkAndTokenReserves>, closes: Seq<bool>,
    user_account_index: u8, k: nat) -> (int, int)
    decreases k,
{
    if k == 0 {
        (0, 0)
    } else {
        let a = chunks_values(cs, closes, user_account_index, (k - 1) as nat);
        let c = cs[k - 1];
        let q = chunk_output(cs, closes, user_account_index, k - 1);
        let v = sets_values((c.temp_price_account->0).account.data@, q.1, q.2, c.sets@.len());
        (a.0 + v.0, a.1 + v.1)
    }
}

/// The number of tabs the first `k` chunks of a sequence of refresh calls cover.
pub open spec fn chunks_tabs(cs: Seq<RefreshUserHealthChunkAndTokenReserves>, k: nat) -> nat
    decreases k,
{
    if k == 0 { 0 } else { chunks_tabs(cs, (k - 1) as nat) + cs[k - 1].sets@.len() }
}

/// A sequence of successful refresh calls in one slot `slot` for a user whose health is
/// not of this slot and whose refresh is not yet begun in it: each call is handed the
/// user account the previous one returned, and every call but the last leaves tabs to
/// cover.
pub open spec fn chained_refresh(cs: Seq<RefreshUserHealthChunkAndTokenReserves>, closes: Seq<bool>,
    user_account_index: u8, slot: u64) -> bool {
    &&& cs.len() > 0
    &&& closes.len() == cs.len()
    &&& forall|i: int| 0 <= i < cs.len() ==> (#[trigger] spec_refresh_user_health(cs[i], user_account_index,
        closes[i])) is Done && cs[i].clock_slot == slot
    &&& cs[0].lending_user_account.last_health_update_clock_slot != slot
    &&& cs[0].lending_user_account.refresh_clock_slot != slot
    &&& forall|i: int| 0 < i < cs.len() ==> (#[trigger] cs[i]).lending_user_account
        == chunk_output(cs, closes, user_account_index, i - 1).0
    &&& forall|i: int| 0 <= i < cs.len() - 1 ==> (#[trigger] chunk_output(cs, closes, user_account_index, i)).0
        .next_tab_index_to_refresh != chunk_output(cs, closes, user_account_index, i).0.tab_account_count
}

/// Over a sequence of refresh calls in one slot (see `chained_refresh`), after the `k`th
/// call the user's running totals are the sums of the values of every tab the calls so
/// far refreshed, in order from the first tab, each tab's deposit and debt at its token's
/// price with its reserve's decimals. Once a call covers the last tab, the account's
/// totals are those sums and its health is of this slot; before that, the totals and the
/// health's slot are those the sequence started from.
pub proof fn law_refresh_chunks_sum(cs: Seq<RefreshUserHealthChunkAndTokenReserves>, closes: Seq<bool>,
    user_account_index: u8, slot: u64, k: nat)
    requires
        chained_refresh(cs, closes, user_account_index, slot),
        1 <= k <= cs.len(),
    ensures
        ({
            let q = chunk_output(cs, closes, user_account_index, k - 1);
            let v = chunks_values(cs, closes, user_account_index, k);
            let ua0 = cs[0].lending_user_account;
            &&& q.0.temp_deposit_usd_value == v.0
            &&& q.0.temp_borrow_usd_value == v.1
            &&& q.0.next_tab_index_to_refresh == chunks_tabs(cs, k)
            &&& q.0.tab_account_count == ua0.tab_account_count
            &&& q.0.refresh_clock_slot == slot
            &&& q.0.next_tab_index_to_refresh == q.0.tab_account_count ==> {
                &&& q.0.total_deposited_usd_value == v.0
                &&& q.0.total_borrowed_usd_value == v.1
                &&& q.0.last_health_update_clock_slot == slot
            }
            &&& q.0.next_tab_index_to_refresh != q.0.tab_account_count ==> {
                &&& q.0.total_deposited_usd_value == ua0.total_deposited_usd_value
                &&& q.0.total_borrowed_usd_value == ua0.total_borrowed_usd_value
                &&& q.0.last_health_update_clock_slot == ua0.last_health_update_clock_slot
            }
        }),
    decreases k,
{
    let i = k - 1;
    assert(spec_refresh_user_health(cs[i], user_account_index, closes[i]) is Done);
    if k > 1 {
        law_refresh_chunks_sum(cs, closes, user_account_index, slot, (k - 1) as nat);
        assert(cs[i].lending_user_account == chunk_output(cs, closes, user_account_index, i - 1).0);
        assert(chunk_output(cs, closes, user_account_index, i - 1).0.next_tab_index_to_refresh
            != chunk_output(cs, closes, user_account_index, i - 1).0.tab_account_count);
    }
    law_refresh_totals(cs[i], user_account_index, closes[i]);
    law_refresh_user_health(cs[i], user_account_index, closes[i]);
    let c = cs[i];
    let q = chunk_output(cs, closes, user_account_index, i);
    let vv = sets_values((c.temp_price_account->0).account.data@, q.1, q.2, c.sets@.len());
    assert(chunks_values(cs, closes, user_account_index, k) == ({
        let a = chunks_values(cs, closes, user_account_index, (k - 1) as nat);
        (a.0 + vv.0, a.1 + vv.1)
    }));
    assert(chunks_tabs(cs, k) == chunks_tabs(cs, (k - 1) as nat) + c.sets@.len());
    if k == 1 {
        assert(c.lending_user_account.refresh_clock_slot != slot);
        assert(spec_begin_refresh(c.lending_user_account, c.clock_slot).next_tab_index_to_refresh == 0);
    } else {
        let p = chunk_output(cs, closes, user_account_index, i - 1);
        assert(c.lending_user_account.refresh_clock_slot == c.clock_slot);
        assert(q.0.temp_deposit_usd_value == p.0.temp_deposit_usd_value + vv.0);
    }
}

/// Refreshing one tab's accounts settles its interest: the tab's debt grows by the
/// interest owed and, without fees, its deposit by the interest earned, both to the
/// refreshed reserve's indexes, which the tab takes; the reserve keeps its token,
/// decimals and solvency fee rate.
proof fn lemma_refresh_accounts_settles(tr: TokenReserve, sm: SubMarket, tab: LendingUserTabAccount,
    st: LendingUserMonthlyStatementAccount, time_stamp: u64, clock_slot: u64)
    requires
        spec_refresh_accounts(tr, sm, tab, st, time_stamp, clock_slot) is Done,
    ensures
        ({
            let r = spec_refresh_accounts(tr, sm, tab, st, time_stamp, clock_slot)->Done_0;
            let owed: int = if tab.borrowed_amount == 0 { 0 } else {
                owed_interest(tab.borrowed_amount, r.0.borrow_interest_change_index, tab.borrow_interest_change_index)
            };
            let earned: int = if tab.deposited_amount == 0 { 0 } else {
                earned_interest(tab.deposited_amount, r.0.supply_interest_change_index,
                    tab.supply_interest_change_index)
            };
            &&& owed >= 0
            &&& owed <= u64::MAX ==> r.2.borrowed_amount == tab.borrowed_amount + owed
            &&& sm.fee_on_interest_earned_rate == 0 && tr.solvency_insurance_fee_rate == 0 && earned <= u64::MAX
                ==> r.2.deposited_amount == tab.deposited_amount + earned
            &&& r.2.borrow_interest_change_index == r.0.borrow_interest_change_index
            &&& r.2.supply_interest_change_index == r.0.supply_interest_change_index
            &&& r.2.token_id == tab.token_id
            &&& r.0.token_id == tr.token_id
            &&& r.0.token_decimal_amount == tr.token_decimal_amount
            &&& r.0.solvency_insurance_fee_rate == tr.solvency_insurance_fee_rate
        }),
{
    reveal(spec_refresh_accounts);
    let tr1 = if tr.last_health_update_clock_slot != clock_slot {
        spec_step_index(tr, time_stamp, Some(clock_slot))->Done_0
    } else {
        tr
    };
    let e = spec_step_earned(tr1, sm, tab, st)->Done_0;
    if tab.borrowed_amount != 0 {
        crate::user_interest::law_accrued_interest_closed(e.0, e.2);
    }
    if tab.deposited_amount != 0 && sm.fee_on_interest_earned_rate == 0 && tr1.solvency_insurance_fee_rate == 0 {
        crate::user_interest::law_earned_interest_without_fees(tr1, sm, tab);
    }
}

/// A refresh settles a tab's interest before valuing it: the refreshed tab's debt is its
/// old debt plus the interest owed from its borrow index to its reserve's (as
/// refreshed), its deposit grows, when no fees are charged, by the interest earned from
/// its supply index to the reserve's (each as long as the interest fits in the tab's 64
/// bits), its indexes become the reserve's, and the user's running totals grow by the
/// refreshed deposit and debt at the token's price.
pub proof fn law_refresh_settles_interest(
    p: RefreshParams,
    prices: Seq<VerifiedPriceData>,
    ua: LendingUserAccount,
    reserves: Seq<Option<Keyed<TokenReserve>>>,
    set: RefreshSet,
)
    requires
        spec_refresh_set(p, prices, ua, reserves, set) is Done,
    ensures
        ({
            let q = spec_refresh_set(p, prices, ua, reserves, set)->Done_0;
            &&& set.tab is Some
            &&& set.sub_market is Some
            &&& q.2.tab is Some
            &&& spec_find_reserve(reserves, set.tab->Some_0.account.token_id, 0) is Some
            &&& {
                let old = set.tab->Some_0.account;
                let new = q.2.tab->Some_0.account;
                let j = spec_find_reserve(reserves, old.token_id, 0)->Some_0;
                let tr = q.1[j]->Some_0.account;
                let owed: int = if old.borrowed_amount == 0 { 0 } else {
                    owed_interest(old.borrowed_amount, tr.borrow_interest_change_index,
                        old.borrow_interest_change_index)
                };
                let earned: int = if old.deposited_amount == 0 { 0 } else {
                    earned_interest(old.deposited_amount, tr.supply_interest_change_index,
                        old.supply_interest_change_index)
                };
                let fee_free = set.sub_market->Some_0.account.fee_on_interest_earned_rate == 0
                    && tr.solvency_insurance_fee_rate == 0;
                let price = spec_price_lookup(prices, old.token_id)->Some_0;
                let conversion = pow10(tr.token_decimal_amount as nat) as int;
                &&& 0 <= j < reserves.len() && q.1[j] is Some
                &&& owed >= 0
                &&& owed <= u64::MAX ==> new.borrowed_amount == old.borrowed_amount + owed
                &&& fee_free && earned <= u64::MAX ==> new.deposited_amount == old.deposited_amount + earned
                &&& new.borrow_interest_change_index == tr.borrow_interest_change_index
                &&& new.supply_interest_change_index == tr.supply_interest_change_index
                &&& spec_price_lookup(prices, old.token_id) is Some
                &&& q.0.temp_deposit_usd_value == ua.temp_deposit_usd_value + (new.deposited_amount * price) / conversion
                &&& q.0.temp_borrow_usd_value == ua.temp_borrow_usd_value + (new.borrowed_amount * price) / conversion
            }
        }),
{
    reveal(spec_refresh_set);
    reveal(spec_refresh_found);
    let t = set.tab->0;
    let tab = t.account;
    lemma_find_reserve(reserves, tab.token_id, 0);
    let j = spec_find_reserve(reserves, tab.token_id, 0)->0;
    let rk = reserves[j]->Some_0;
    let sm = spec_check_sub_market(p.program_id, set.sub_market, tab.token_id, tab.sub_market_owner_address,
        tab.sub_market_index)->Done_0;
    let st = spec_check_statement(p.program_id, set.statement, p.lending_protocol, tab.token_id,
        tab.sub_market_owner_address, tab.sub_market_index, p.owner, p.user_account_index)->Done_0;
    lemma_refresh_accounts_settles(rk.account, sm.account, tab, st.account, p.time_stamp, p.clock_slot);
    let r = spec_refresh_accounts(rk.account, sm.account, tab, st.account, p.time_stamp, p.clock_slot)->Done_0;
    let q = spec_refresh_set(p, prices, ua, reserves, set)->Done_0;
    assert(q.1 == reserves.update(j, Some(Keyed { key: rk.key, account: r.0 })));
    assert(q.2.tab == Some(Keyed { key: t.key, account: r.2 }));
    lemma_refresh_set_values(p, prices, ua, reserves, set);
    lemma_find_reserve_same(reserves, q.1, tab.token_id, 0);
}

} // verus!
