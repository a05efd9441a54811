use vstd::prelude::*;

verus! {

/// Authorization failures of the protocol's privileged instructions.
#[derive(Debug, Clone, Copy, PartialEq, Eq, Structural)]
pub enum AuthorizationError {
    NotCEO,
    NotSolvencyTreasurer,
    NotLiquidationTreasurer,
    NotFeeCollector,
}

/// Rejections of malformed instruction input.
#[derive(Debug, Clone, Copy, PartialEq, Eq, Structural)]
pub enum InvalidInputError {
    InvalidSubMarketFeeRate,
    InvalidSolvencyInsuranceFeeRate,
    IncorrectNumberOfTabAccounts,
    IncorrectNumberOfTabAndPythPriceUpdateAccounts,
    IncorrectOrderOfTabAccounts,
    UnexpectedLendingStatsAccount,
    UnexpectedTabAccount,
    UnexpectedPythPriceUpdateAccount,
    UnexpectedTokenReserveAccount,
    UnexpectedSubMarketAccount,
    UnexpectedMonthlyStatementAccount,
    LendingUserAccountNameTooLong,
    GlobalLimitExceeded,
}

/// Every error that an instruction of the protocol can end with.
#[derive(Debug, Clone, Copy, PartialEq, Eq, Structural)]
pub enum LendingError {
    // authorization
    NotCEO,
    NotSolvencyTreasurer,
    NotLiquidationTreasurer,
    NotFeeCollector,
    NotPriceOracle,
    // input
    InvalidSubMarketFeeRate,
    InvalidSolvencyInsuranceFeeRate,
    InvalidBaseBorrowAPY,
    IncorrectOrderOfTabAccounts,
    UnexpectedLendingStatsAccount,
    UnexpectedTabAccount,
    UnexpectedTokenReserveAccount,
    UnexpectedSubMarketAccount,
    UnexpectedMonthlyStatementAccount,
    UnexpectedLendingUserAccount,
    UnexpectedOraclePriceValidatorAccount,
    UnexpectedOraclePriceDataAccount,
    InvalidTokenAccount,
    InvalidTokenAccountMint,
    InvalidTokenAccountOwner,
    LendingUserAccountNameTooLong,
    GlobalLimitExceeded,
    MissingRemainingAccount,
    MissingSubMarketLookUpTable,
    MissingLendingUserLookUpTable,
    MissingTokenReserveAccountForRefresh,
    PriceOracleKeyMisMatched,
    TooManyTabAccounts,
    // lending
    InsufficientFunds,
    InsufficientLiquidity,
    TooManyFunds,
    StaleTokenReserveOrLendingUser,
    GriefingRepayment,
    LiquidationExposure,
    NotLiquidatable,
    OverLiquidation,
    NotInsolvent,
    DuplicateSubMarket,
    OracleDataStale,
    OraclePriceNotFound,
    // arithmetic failures reported by the fixed point routines
    ArithmeticOverflow,
    InvalidArgument,
}

} // verus!
