//! Error types of the contracts.
use vstd::prelude::*;

verus! {

/// Errors of a PSP22 token (the fungible-token standard of the chain).
#[derive(Debug, Clone, PartialEq, Eq)]
pub enum PSP22Error {
    /// Custom error type for implementation-based errors.
    Custom(String),
    /// Returned when an account does not have enough tokens to complete the operation.
    InsufficientBalance,
    /// Returned if there is not enough allowance to complete the operation.
    InsufficientAllowance,
    /// Returned if recipient's address is zero.
    ZeroRecipientAddress,
    /// Returned if sender's address is zero.
    ZeroSenderAddress,
    /// Returned if a safe transfer check failed.
    SafeTransferCheckFailed(String),
}

/// Errors of a lending pool.
#[derive(Debug, Clone)]
pub enum LAssetError {
    DepositOverflow,
    DepositTransferFailed(PSP22Error),
    FirstDepositRequiresGasCollateral,
    DepositWhileBorrowingNotAllowed,
    WithdrawOverflow,
    WithdrawTransferFailed(PSP22Error),
    WithdrawWithoutDeposit,
    CollateralValueTooLowAfterWithdraw,
    MintOverflow,
    MintTransferFailed(PSP22Error),
    MintFeeOverflow,
    BurnOverflow,
    BurnTooMuch,
    BurnTransferFailed(PSP22Error),
    BorrowOverflow,
    BorrowFeeOverflow,
    FirstBorrowRequiresGasCollateral,
    BorrowTransferFailed(PSP22Error),
    CollateralValueTooLowAfterBorrow,
    BorrowWhileDepositingNotAllowed,
    DepositCashTransferFailed(PSP22Error),
    DepositCashOverflow,
    WithdrawCashTransferFailed(PSP22Error),
    LiquidateForNothing,
    LiquidateTooMuch,
    LiquidateTooEarly,
    LiquidateTransferFailed(PSP22Error),
    RepayWithoutBorrow,
    RepayTransferFailed(PSP22Error),
    RepayCashOverflow,
    SetPriceUnathorized,
    SetParamsUnathorized,
}

/// Errors of a pool lending its cash for a flash loan.
#[derive(Debug, Clone)]
pub enum TakeCashError {
    Unauthorized,
    Overflow,
    Transfer(PSP22Error),
}

/// Errors of the flash-loan pool interface.
#[derive(Debug, Clone)]
pub enum FlashLoanPoolError {
    TakeCashUnauthorized,
    TakeCashFeeOverflow,
    TakeCashOverflow,
    TakeCashFailed(PSP22Error),
}

/// Errors that a flash-loan receiver reports.
#[derive(Debug, Clone)]
pub enum FlashLoanReceiverError {
    Error,
    CustomError(String),
}

/// Errors of a flash loan arranged by the admin.
#[derive(Debug, Clone)]
pub enum FlashLoanError {
    TransferFailed(PSP22Error),
    ReceiverFailed(FlashLoanReceiverError),
    TakeCashFailed(TakeCashError),
    Overflow,
    Unathorized,
}

/// Errors of the admin contract.
#[derive(Debug, Clone, Copy, PartialEq, Eq, Structural)]
pub enum AdminError {
    AddAssetUnauthorized,
    PushPriceUnauthorized,
    PushParamsUnauthorized,
}

/// Errors of the share-issuing asset pool.
#[derive(Debug, Clone, PartialEq, Eq)]
pub enum AssetPoolError {
    /// PSP22Error from underlying asset or collateral asset.
    PSP22Error(PSP22Error),
    /// RatioCalculationError due to overflow or zero division
    RatioCalculationError,
    /// Non-manager tried to call an authorized function
    Unauthorized,
}

impl From<PSP22Error> for AssetPoolError {
    /// Wraps an error of the underlying token.
    fn from(err: PSP22Error) -> (r: AssetPoolError) {
        AssetPoolError::PSP22Error(err)
    }
}

impl vstd::std_specs::convert::FromSpecImpl<PSP22Error> for AssetPoolError {
    open spec fn obeys_from_spec() -> bool {
        true
    }

    open spec fn from_spec(err: PSP22Error) -> AssetPoolError {
        AssetPoolError::PSP22Error(err)
    }
}

/// Errors of the multi-token ledger ([`crate::finance::Finance`]). The
/// variants named `...Impossible` stand for states that the ledger's own
/// bookkeeping never reaches.
#[derive(Debug, Clone, Copy, PartialEq, Eq, Structural)]
pub enum FinanceError {
    AccumulatedRateOverflow,
    BorrowHealthCheckFailed,
    BorrowOverflow,
    BorrowedWithInterestOverflow,
    CallerIsNotAdmin,
    CallerIsNotOracle,
    CallerIsNotToken,
    CumulativeBorrowRateOverflow,
    CumulativeInvestRateOverflow,
    DepositOverflow,
    DepositUserOverflow,
    DepositUserTotalOverflow,
    InterestOverflow,
    InvalidAction,
    InvestOverflow,
    InvestedWithInterestOverflow,
    NothingToRedeem,
    NothingToRedeemForUser,
    NothingToRedeemForUserTotal,
    NothingToRedeposit,
    NothingToRedepositForUser,
    NothingToRedepositForUserTotal,
    NothingToWithdraw,
    NothingToWithdrawForUser,
    NothingToWithdrawForUserTotal,
    OldInvestedZeroImpossible,
    PriceNeverUpdatedImpossible,
    PriceNotConfirmedByUser,
    PriceNotFound,
    PriceNotUpdatedByUser,
    PriceOutOfDate,
    PriceUpdateForBalanceNotComplete,
    PriceUpdateForBorrowedNotComplete,
    PriceUpdateForInvestedNotComplete,
    RateDoesNotFitImpossible,
    RedeemTooMuch,
    RedeemTooMuchForUser,
    RedeemTooMuchForUserTotal,
    RedepositHealthCheckFailed,
    RedepositTooMuch,
    RedepositTooMuchForUser,
    RedepositTooMuchForUserTotal,
    TimeDeltaOverflowImpossible,
    TokenDisabled,
    TokenNotSupported,
    UnpricedBalanceOverflowImpossible,
    UnpricedBorrowedOverflowImpossible,
    UnpricedInvestedOverflowImpossible,
    UserBalanceReductionOverflowImpossible,
    UserBalanceValueEmptyImpossible,
    UserBalanceValueOverflow,
    UserBalanceValueTooHigh,
    UserBorrowOverflow,
    UserBorrowTotalOverflow,
    UserBorrowedDeltaValueOverflow,
    UserBorrowedValueEmptyImpossible,
    UserBorrowedValueTooHigh,
    UserBorrowedWithCumulativeOverflow,
    UserCurrentBalanceValueOverflowImpossible,
    UserCurrentBorrowedValueOverflowImpossible,
    UserCurrentInvestedValueOverflowImpossible,
    UserInvestOverflow,
    UserInvestTotalOverflow,
    UserInvestedReductionOverflowImpossible,
    UserInvestedValueEmptyImpossible,
    UserInvestedValueOverflow,
    UserInvestedValueTooHigh,
    UserInvestedWithCumulativeOverflow,
    UserTotalBalanceValueTooHigh,
    UserTotalBorrowedNegativeDeltaImpossible,
    UserTotalBorrowedValueTooHigh,
    UserTotalInvestedValueTooHigh,
    WithdrawHealthCheckFailed,
    WithdrawTooMuch,
    WithdrawTooMuchForUser,
    WithdrawTooMuchForUserTotal,
}

} // verus!
