//! A flash-loan desk: it takes cash from a pool, lends it to a receiver for
//! the length of one call, and returns it to the pool with a fee counted in
//! millionths of the amount.
//!
//! A loan is a sequence of calls into other contracts; the desk decides,
//! after each answer, which call comes next (see [`Flash::flash_loan_next`]).
use vstd::prelude::*;
use crate::account::AccountId;
use crate::errors::{FlashLoanPoolError, FlashLoanReceiverError, PSP22Error};
use crate::wide::limb;

verus! {

/// Errors of a flash loan made by the desk.
#[derive(Debug, Clone)]
pub enum FlashLoanError {
    TransferFailed(PSP22Error),
    ReceiverFailed(FlashLoanReceiverError),
    TakeCashFailed(FlashLoanPoolError),
    Overflow,
    Unathorized,
}

/// The desk: who may set the fee, and the fee in millionths.
#[derive(Debug, Clone, Copy)]
pub struct Flash {
    pub fee_admin: AccountId,
    pub fee_per_million: u32,
}

/// The fee on `amount` at `fee_per_million` millionths: the product is taken
/// modulo `2^128` before the division.
pub open spec fn flash_fee(amount: u128, fee_per_million: u32) -> u128 {
    (((amount * fee_per_million) % (limb() as int)) / 1_000_000) as u128
}

/// A step of a flash loan: the call the desk makes next.
#[derive(Debug, Clone, Copy)]
pub enum FlashLoanCall {
    /// Take `amount` of cash from `pool`.
    TakeCash { pool: AccountId, amount: u128 },
    /// Send `amount` of the pool's underlying token to `to`.
    Transfer { to: AccountId, amount: u128 },
    /// Let `target` use `amount` for the length of the call.
    OnFlashLoan { target: AccountId, amount: u128 },
}

/// Where a flash loan stands: the call just made.
#[derive(Debug, Clone, Copy, PartialEq, Eq, Structural)]
pub enum FlashLoanStage {
    TakingCash,
    Lending,
    Calling,
    Returning,
}

/// The answer to the call just made.
#[derive(Debug)]
pub enum FlashLoanAnswer {
    CashTaken(Result<(), FlashLoanPoolError>),
    Transferred(Result<(), PSP22Error>),
    Called(Result<(), FlashLoanReceiverError>),
}

/// The answer fits the call made at `stage`.
pub open spec fn answer_fits(stage: FlashLoanStage, answer: FlashLoanAnswer) -> bool {
    match stage {
        FlashLoanStage::TakingCash => answer is CashTaken,
        FlashLoanStage::Lending => answer is Transferred,
        FlashLoanStage::Calling => answer is Called,
        FlashLoanStage::Returning => answer is Transferred,
    }
}

impl Flash {
    /// A desk whose fee admin is `caller`.
    pub fn new(caller: AccountId, fee_per_million: u32) -> (f: Self)
        ensures
            f == (Flash { fee_admin: caller, fee_per_million }),
    {
        Flash { fee_admin: caller, fee_per_million }
    }

    /// The fee on `amount`, see [`flash_fee`].
    pub fn calculate_fee(&self, amount: u128) -> (r: u128)
        ensures
            r == flash_fee(amount, self.fee_per_million),
    {
        amount.wrapping_mul(self.fee_per_million as u128) / 1_000_000
    }

    /// The fee in millionths.
    pub fn fee_per_million(&self) -> (r: u32)
        ensures
            r == self.fee_per_million,
    {
        self.fee_per_million
    }

    /// The fee admin `caller` sets the fee.
    pub fn set_fee_per_million(&mut self, caller: AccountId, fee: u32) -> (r: Result<(), FlashLoanError>)
        ensures
            caller != old(self).fee_admin ==> (r matches Err(FlashLoanError::Unathorized))
                && *final(self) == *old(self),
            caller == old(self).fee_admin ==> r is Ok && *final(self) == (Flash {
                fee_per_million: fee,
                ..*old(self)
            }),
    {
        if caller != self.fee_admin {
            return Err(FlashLoanError::Unathorized);
        }
        self.fee_per_million = fee;
        Ok(())
    }

    /// What goes back to the pool for a loan of `amount`: the amount and the
    /// fee, at most `u128::MAX`.
    pub open spec fn repayment(&self, amount: u128) -> u128 {
        if amount + flash_fee(amount, self.fee_per_million) > u128::MAX {
            u128::MAX
        } else {
            (amount + flash_fee(amount, self.fee_per_million)) as u128
        }
    }

    /// The first call of a loan of `amount` from `pool`.
    pub fn flash_loan_start(&self, pool: AccountId, amount: u128) -> (r: (FlashLoanStage, FlashLoanCall))
        ensures
            r == (FlashLoanStage::TakingCash, FlashLoanCall::TakeCash { pool, amount }),
    {
        (FlashLoanStage::TakingCash, FlashLoanCall::TakeCash { pool, amount })
    }

    /// The call after the one made at `stage` in a loan of `amount` from
    /// `pool` to `target` got `answer`: take the cash, send it to the target,
    /// let the target use it, and return it with the fee to the pool. A
    /// failed call ends the loan with its error; `None` when the loan is
    /// done.
    pub fn flash_loan_next(
        &self,
        pool: AccountId,
        amount: u128,
        target: AccountId,
        stage: FlashLoanStage,
        answer: FlashLoanAnswer,
    ) -> (r: Result<Option<(FlashLoanStage, FlashLoanCall)>, FlashLoanError>)
        requires
            answer_fits(stage, answer),
        ensures
            match answer {
                FlashLoanAnswer::CashTaken(Err(e)) => r matches Err(
                    FlashLoanError::TakeCashFailed(x),
                ) && x == e,
                FlashLoanAnswer::Transferred(Err(e)) => r matches Err(
                    FlashLoanError::TransferFailed(x),
                ) && x == e,
                FlashLoanAnswer::Called(Err(e)) => r matches Err(
                    FlashLoanError::ReceiverFailed(x),
                ) && x == e,
                _ => r == Ok::<Option<(FlashLoanStage, FlashLoanCall)>, FlashLoanError>(
                    match stage {
                        FlashLoanStage::TakingCash => Some(
                            (FlashLoanStage::Lending, FlashLoanCall::Transfer { to: target, amount }),
                        ),
                        FlashLoanStage::Lending => Some(
                            (FlashLoanStage::Calling, FlashLoanCall::OnFlashLoan { target, amount }),
                        ),
                        FlashLoanStage::Calling => Some(
                            (
                                FlashLoanStage::Returning,
                                FlashLoanCall::Transfer { to: pool, amount: self.repayment(amount) },
                            ),
                        ),
                        FlashLoanStage::Returning => None,
                    },
                ),
            },
    {
        match answer {
            FlashLoanAnswer::CashTaken(Err(e)) => {
                return Err(FlashLoanError::TakeCashFailed(e));
            },
            FlashLoanAnswer::Transferred(Err(e)) => {
                return Err(FlashLoanError::TransferFailed(e));
            },
            FlashLoanAnswer::Called(Err(e)) => {
                return Err(FlashLoanError::ReceiverFailed(e));
            },
            _ => {},
        }
        match stage {
            FlashLoanStage::TakingCash => Ok(
                Some((FlashLoanStage::Lending, FlashLoanCall::Transfer { to: target, amount })),
            ),
            FlashLoanStage::Lending => Ok(
                Some((FlashLoanStage::Calling, FlashLoanCall::OnFlashLoan { target, amount })),
            ),
            FlashLoanStage::Calling => {
                let back = amount.saturating_add(self.calculate_fee(amount));
                Ok(
                    Some(
                        (FlashLoanStage::Returning, FlashLoanCall::Transfer { to: pool, amount: back }),
                    ),
                )
            },
            FlashLoanStage::Returning => Ok(None),
        }
    }
}

} // verus!
