use vstd::prelude::*;

verus! {

/// A 32 byte account address.
#[derive(Debug, Clone, Copy, Default)]
pub struct Pubkey {
    pub bytes: [u8; 32],
}

/// Compares two addresses byte by byte.
pub fn keys_equal(a: &Pubkey, b: &Pubkey) -> (r: bool)
    ensures
        r == (*a == *b),
{
    broadcast use vstd::array::group_array_axioms;
    let mut i: usize = 0;
    while i < 32
        invariant
            0 <= i <= 32,
            forall|j: int| 0 <= j < i ==> a.bytes[j] == b.bytes[j],
        decreases 32 - i,
    {
        if a.bytes[i] != b.bytes[i] {
            return false;
        }
        i = i + 1;
    }
    assert(a.bytes =~= b.bytes);
    true
}

/// One verified oracle price: the token it is for and its price with 18 decimals.
#[derive(Debug, Clone, Copy, PartialEq, Eq, Structural, Default)]
pub struct VerifiedPriceData {
    pub token_id: u8,
    pub normalized_price_18_decimals: u128,
}

/// The prices that the price oracle hands in, with the slot they were read at.
#[derive(Debug, Clone, Default)]
pub struct PriceDataPayload {
    pub data: Vec<VerifiedPriceData>,
    pub slot: u64,
}

#[derive(Debug, Clone, Copy, Default)]
pub struct LendingProtocolCEO {
    pub address: Pubkey,
}

#[derive(Debug, Clone, Copy, Default)]
pub struct SolvencyTreasurer {
    pub address: Pubkey,
}

#[derive(Debug, Clone, Copy, Default)]
pub struct LiquidationTreasurer {
    pub address: Pubkey,
}

#[derive(Debug, Clone, Copy, Default)]
pub struct OraclePriceValidator {
    pub bump: u8,
    pub address: Pubkey,
}

#[derive(Debug, Clone, Default)]
pub struct TempOraclePriceAccount {
    pub bump: u8,
    pub data: Vec<VerifiedPriceData>,
    pub slot: u64,
}

#[derive(Debug, Clone, Copy, Default)]
pub struct LendingProtocol {
    pub current_statement_month: u8,
    pub current_statement_year: u16,
    pub max_tabs_per_lending_account: u8,
    pub look_up_table_address: Pubkey,
}

#[derive(Debug, Clone, Copy, Default)]
pub struct TokenReserveStats {
    pub token_reserve_count: u8,
    pub token_reserves_updated_count: u32,
}

#[derive(Debug, Clone, Copy, Default)]
pub struct SubMarketStats {
    pub sub_market_creation_count: u32,
    pub sub_market_edit_count: u32,
}

#[derive(Debug, Clone, Copy, Default)]
pub struct LendingStats {
    pub bump: u8,
    pub deposits: u128,
    pub withdrawals: u128,
    pub borrows: u128,
    pub repayments: u128,
    pub liquidations: u128,
    pub snap_shots: u128,
    pub fee_collections: u128,
}

#[derive(Debug, Clone, Copy, Default)]
pub struct LendingUserStats {
    pub name_change_count: u128,
}

/// The pool of one token: its rates, interest indexes and running totals.
#[derive(Debug, Clone, Copy, Default)]
pub struct TokenReserve {
    pub bump: u8,
    pub token_id: u8,
    pub token_mint_address: Pubkey,
    pub token_decimal_amount: u8,
    pub supply_apy: u16,
    pub borrow_apy: u16,
    pub base_borrow_apy: u16,
    pub use_fixed_borrow_apy: bool,
    pub utilization_rate: u16,
    pub global_limit: u128,
    pub supply_interest_change_index: u128,
    pub borrow_interest_change_index: u128,
    pub deposited_amount: u128,
    pub interest_earned_amount: u128,
    pub solvency_insurance_fee_rate: u16,
    pub uncollected_solvency_insurance_fees_amount: u128,
    pub uncollected_liquidation_fees_amount: u128,
    pub borrowed_amount: u128,
    pub interest_accrued_amount: u128,
    pub repaid_debt_amount: u128,
    pub liquidated_amount: u128,
    pub last_lending_activity_amount: u64,
    pub last_lending_activity_type: u8,
    pub last_lending_activity_time_stamp: u64,
    pub last_health_update_clock_slot: u64,
}

/// A sub market of a token reserve, owned by someone who earns a fee on its interest.
#[derive(Debug, Clone, Copy, Default)]
pub struct SubMarket {
    pub bump: u8,
    pub id: u32,
    pub owner: Pubkey,
    pub token_id: u8,
    pub sub_market_index: u16,
    pub fee_collector_address: Pubkey,
    pub fee_on_interest_earned_rate: u16,
    pub supply_interest_change_index: u128,
    pub borrow_interest_change_index: u128,
    pub deposited_amount: u128,
    pub interest_earned_amount: u128,
    pub sub_market_fees_generated_amount: u128,
    pub uncollected_sub_market_fees_amount: u128,
    pub solvency_insurance_fees_generated_amount: u128,
    pub liquidation_fees_generated_amount: u128,
    pub borrowed_amount: u128,
    pub interest_accrued_amount: u128,
    pub repaid_debt_amount: u128,
    pub liquidated_amount: u128,
    pub last_lending_activity_amount: u64,
    pub last_lending_activity_type: u8,
    pub last_lending_activity_time_stamp: u64,
}

#[derive(Debug, Clone, Copy, Default)]
pub struct SubMarketOwnerLookUpTable {
    pub owner: Pubkey,
    pub look_up_table_address: Pubkey,
    pub look_up_table_added: bool,
}

/// A user's lending account, with the health totals of all its tabs.
#[derive(Debug, Clone, Default)]
pub struct LendingUserAccount {
    pub bump: u8,
    pub owner: Pubkey,
    pub user_account_index: u8,
    pub account_name: String,
    pub lending_user_account_added: bool,
    pub tab_account_count: u8,
    pub total_deposited_usd_value: u128,
    pub total_borrowed_usd_value: u128,
    pub refresh_clock_slot: u64,
    pub last_health_update_clock_slot: u64,
    pub temp_deposit_usd_value: u128,
    pub temp_borrow_usd_value: u128,
    pub next_tab_index_to_refresh: u8,
    pub look_up_table_address: Pubkey,
}

/// A user's position in one sub market.
#[derive(Debug, Clone, Copy, Default)]
pub struct LendingUserTabAccount {
    pub bump: u8,
    pub token_id: u8,
    pub sub_market_owner_address: Pubkey,
    pub sub_market_index: u16,
    pub owner: Pubkey,
    pub user_account_index: u8,
    pub user_tab_account_index: u8,
    pub user_tab_account_added: bool,
    pub supply_interest_change_index: u128,
    pub borrow_interest_change_index: u128,
    pub deposited_amount: u64,
    pub interest_earned_amount: u64,
    pub fees_generated_amount: u64,
    pub borrowed_amount: u64,
    pub interest_accrued_amount: u64,
    pub repaid_debt_amount: u64,
    pub liquidated_amount: u64,
    pub liquidator_amount: u64,
    pub interest_change_last_updated_clock_slot: u64,
}

/// The statement of one tab for one month.
#[derive(Debug, Clone, Copy, Default)]
pub struct LendingUserMonthlyStatementAccount {
    pub bump: u8,
    pub token_id: u8,
    pub sub_market_owner_address: Pubkey,
    pub sub_market_index: u16,
    pub owner: Pubkey,
    pub user_account_index: u8,
    pub statement_month: u8,
    pub statement_year: u16,
    pub monthly_statement_account_added: bool,
    pub snap_shot_balance_amount: u64,
    pub snap_shot_debt_amount: u64,
    pub monthly_deposited_amount: u64,
    pub monthly_interest_earned_amount: u64,
    pub fees_generated_amount: u64,
    pub monthly_sub_market_fees_collected_amount: u64,
    pub monthly_solvency_insurance_fees_collected_amount: u64,
    pub monthly_liquidation_fees_collected_amount: u64,
    pub monthly_withdrawal_amount: u64,
    pub monthly_borrowed_amount: u64,
    pub monthly_interest_accrued_amount: u64,
    pub monthly_repaid_debt_amount: u64,
    pub monthly_liquidated_amount: u64,
    pub monthly_liquidator_amount: u64,
    pub last_lending_activity_amount: u64,
    pub last_lending_activity_type: u8,
    pub last_lending_activity_time_stamp: u64,
}

impl LendingUserAccount {
    /// An exact copy of the account, name included.
    pub fn duplicate(&self) -> (r: LendingUserAccount)
        ensures
            r == *self,
    {
        LendingUserAccount {
            bump: self.bump,
            owner: self.owner,
            user_account_index: self.user_account_index,
            account_name: self.account_name.clone(),
            lending_user_account_added: self.lending_user_account_added,
            tab_account_count: self.tab_account_count,
            total_deposited_usd_value: self.total_deposited_usd_value,
            total_borrowed_usd_value: self.total_borrowed_usd_value,
            refresh_clock_slot: self.refresh_clock_slot,
            last_health_update_clock_slot: self.last_health_update_clock_slot,
            temp_deposit_usd_value: self.temp_deposit_usd_value,
            temp_borrow_usd_value: self.temp_borrow_usd_value,
            next_tab_index_to_refresh: self.next_tab_index_to_refresh,
            look_up_table_address: self.look_up_table_address,
        }
    }
}

} // verus!
