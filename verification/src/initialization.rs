use vstd::prelude::*;
use vstd::string::StrSliceExecFns;
use crate::errors::LendingError;
use crate::structs::{
    Pubkey, LendingProtocol, LendingUserAccount, LendingUserTabAccount, LendingUserMonthlyStatementAccount,
};

verus! {

/// The longest account name accepted, in characters.
pub const MAX_ACCOUNT_NAME_LENGTH: usize = 25;

/// The lending user account once it is set up.
pub open spec fn spec_init_user_account(
    a: LendingUserAccount,
    bump: u8,
    owner: Pubkey,
    user_account_index: u8,
    account_name: String,
    look_up_table_address: Pubkey,
) -> LendingUserAccount {
    LendingUserAccount {
        bump: bump,
        owner: owner,
        user_account_index: user_account_index,
        account_name: account_name,
        look_up_table_address: look_up_table_address,
        lending_user_account_added: true,
        ..a
    }
}

/// Sets up a lending user account; the name must be at most 25 characters long.
pub fn initialize_lending_user_account(
    lending_user_account: &mut LendingUserAccount,
    bump: u8,
    user_account_owner: Pubkey,
    user_account_index: u8,
    account_name: String,
    look_up_table_address: Pubkey,
) -> (r: Result<(), LendingError>)
    ensures
        r is Ok <==> account_name@.len() <= 25,
        r matches Err(e) ==> e == LendingError::LendingUserAccountNameTooLong
            && *final(lending_user_account) == *old(lending_user_account),
        r is Ok ==> *final(lending_user_account) == spec_init_user_account(*old(lending_user_account), bump,
            user_account_owner, user_account_index, account_name, look_up_table_address),
{
    if account_name.as_str().unicode_len() > MAX_ACCOUNT_NAME_LENGTH {
        return Err(LendingError::LendingUserAccountNameTooLong);
    }
    lending_user_account.bump = bump;
    lending_user_account.owner = user_account_owner;
    lending_user_account.user_account_index = user_account_index;
    lending_user_account.account_name = account_name;
    lending_user_account.look_up_table_address = look_up_table_address;
    lending_user_account.lending_user_account_added = true;
    Ok(())
}

/// The tab account once it is set up as the user's next tab.
pub open spec fn spec_init_tab(
    tab: LendingUserTabAccount,
    next_index: u8,
    bump: u8,
    token_id: u8,
    sub_market_owner_address: Pubkey,
    sub_market_index: u16,
    owner: Pubkey,
    user_account_index: u8,
) -> LendingUserTabAccount {
    LendingUserTabAccount {
        bump: bump,
        token_id: token_id,
        sub_market_owner_address: sub_market_owner_address,
        sub_market_index: sub_market_index,
        user_tab_account_index: next_index,
        owner: owner,
        user_account_index: user_account_index,
        user_tab_account_added: true,
        ..tab
    }
}

/// Sets up a tab account as the user's next tab and counts it on the user's account;
/// fails, with both accounts already changed, when the user then has more tabs than
/// the protocol allows.
pub fn initialize_lending_user_tab_account(
    lending_user_account: &mut LendingUserAccount,
    lending_user_tab_account: &mut LendingUserTabAccount,
    lending_protocol: &LendingProtocol,
    bump: u8,
    token_id: u8,
    sub_market_owner_address: Pubkey,
    sub_market_index: u16,
    user_account_owner: Pubkey,
    user_account_index: u8,
) -> (r: Result<(), LendingError>)
    requires
        old(lending_user_account).tab_account_count < u8::MAX,
    ensures
        *final(lending_user_tab_account) == spec_init_tab(*old(lending_user_tab_account),
            old(lending_user_account).tab_account_count, bump, token_id, sub_market_owner_address,
            sub_market_index, user_account_owner, user_account_index),
        *final(lending_user_account) == (LendingUserAccount {
            tab_account_count: (old(lending_user_account).tab_account_count + 1) as u8,
            ..*old(lending_user_account)
        }),
        r is Ok <==> old(lending_user_account).tab_account_count + 1 <= lending_protocol.max_tabs_per_lending_account,
        r matches Err(e) ==> e == LendingError::TooManyTabAccounts,
{
    lending_user_tab_account.bump = bump;
    lending_user_tab_account.token_id = token_id;
    lending_user_tab_account.sub_market_owner_address = sub_market_owner_address;
    lending_user_tab_account.sub_market_index = sub_market_index;
    lending_user_tab_account.user_tab_account_index = lending_user_account.tab_account_count;
    lending_user_tab_account.owner = user_account_owner;
    lending_user_tab_account.user_account_index = user_account_index;
    lending_user_tab_account.user_tab_account_added = true;

    lending_user_account.tab_account_count = lending_user_account.tab_account_count + 1;

    if lending_user_account.tab_account_count > lending_protocol.max_tabs_per_lending_account {
        return Err(LendingError::TooManyTabAccounts);
    }
    Ok(())
}

/// The monthly statement once it is opened for the protocol's current month.
pub open spec fn spec_init_statement(
    stmt: LendingUserMonthlyStatementAccount,
    tab: LendingUserTabAccount,
    lending_protocol: LendingProtocol,
    bump: u8,
    token_id: u8,
    sub_market_owner_address: Pubkey,
    sub_market_index: u16,
    owner: Pubkey,
    user_account_index: u8,
) -> LendingUserMonthlyStatementAccount {
    LendingUserMonthlyStatementAccount {
        bump: bump,
        token_id: token_id,
        sub_market_owner_address: sub_market_owner_address,
        sub_market_index: sub_market_index,
        owner: owner,
        user_account_index: user_account_index,
        statement_month: lending_protocol.current_statement_month,
        statement_year: lending_protocol.current_statement_year,
        snap_shot_balance_amount: tab.deposited_amount,
        snap_shot_debt_amount: tab.borrowed_amount,
        monthly_statement_account_added: true,
        ..stmt
    }
}

/// Opens a monthly statement for the protocol's current month, starting from the
/// tab's current balance and debt.
pub fn initialize_lending_user_monthly_statement_account(
    lending_user_monthly_statement_account: &mut LendingUserMonthlyStatementAccount,
    lending_user_tab_account: &LendingUserTabAccount,
    lending_protocol: &LendingProtocol,
    bump: u8,
    token_id: u8,
    sub_market_owner_address: Pubkey,
    sub_market_index: u16,
    user_account_owner: Pubkey,
    user_account_index: u8,
) -> (r: Result<(), LendingError>)
    ensures
        r is Ok,
        *final(lending_user_monthly_statement_account) == spec_init_statement(
            *old(lending_user_monthly_statement_account), *lending_user_tab_account, *lending_protocol, bump,
            token_id, sub_market_owner_address, sub_market_index, user_account_owner, user_account_index),
{
    let s = lending_user_monthly_statement_account;
    s.bump = bump;
    s.token_id = token_id;
    s.sub_market_owner_address = sub_market_owner_address;
    s.sub_market_index = sub_market_index;
    s.owner = user_account_owner;
    s.user_account_index = user_account_index;
    s.statement_month = lending_protocol.current_statement_month;
    s.statement_year = lending_protocol.current_statement_year;
    s.snap_shot_balance_amount = lending_user_tab_account.deposited_amount;
    s.snap_shot_debt_amount = lending_user_tab_account.borrowed_amount;
    s.monthly_statement_account_added = true;
    Ok(())
}

} // verus!
