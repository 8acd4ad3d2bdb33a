//! The admin of a ring of lending pools: it creates the pools, closes the
//! ring through itself, keeps the prices and parameters that the DAO pushes
//! and hands them to every pool of the ring, and arranges flash loans.
//!
//! Creating a pool, walking the ring and a flash loan are calls into other
//! contracts; the admin decides each call, and the caller of these
//! functions makes it and hands the answer back.
use vstd::prelude::*;
use crate::account::AccountId;
use crate::errors::{AdminError, FlashLoanError, FlashLoanReceiverError, PSP22Error, TakeCashError};
use crate::finance::lookup;
use crate::map::KeyMap;
use crate::structs::{AssetParams, RepayOrUpdateResult, UpdateResult};

verus! {

/// The admin.
pub struct Admin {
    pub dao: AccountId,
    pub hash: [u8; 32],
    pub next: AccountId,
    pub prices: KeyMap<AccountId, (u128, u128)>,
    pub params: KeyMap<AccountId, AssetParams>,
}

/// How to create a new pool: its underlying token, the pool that follows it
/// in the ring, the gas collateral it asks of first depositors and
/// borrowers, and the code of the pool contract. The pool's address is
/// derived from the underlying token's.
#[derive(Debug, Clone, Copy)]
pub struct AssetInstantiation {
    pub underlying: AccountId,
    pub next: AccountId,
    pub gas_collateral: u128,
    pub code_hash: [u8; 32],
}

/// A call of a flash loan that the admin arranges.
#[derive(Debug, Clone, Copy)]
pub enum LoanCall {
    /// Ask `pool` to send `amount` of its cash to `target`.
    TakeCash { pool: AccountId, amount: u128, target: AccountId },
    /// Tell `target` that `initiator` lent it `amount` of `token`, owing
    /// `fee` on top.
    OnFlashLoan { target: AccountId, initiator: AccountId, token: AccountId, amount: u128, fee: u128 },
    /// Move `amount` of `token` from `from` back to `to`.
    TransferFrom { token: AccountId, from: AccountId, to: AccountId, amount: u128 },
}

/// Where a flash loan stands: the call just made.
#[derive(Debug, Clone, Copy, PartialEq, Eq, Structural)]
pub enum LoanStage {
    TakingCash,
    Calling { token: AccountId, fee: u128 },
    Collecting,
}

/// The answer to the call just made.
#[derive(Debug)]
pub enum LoanAnswer {
    CashTaken(Result<(AccountId, u128), TakeCashError>),
    Called(Result<(), FlashLoanReceiverError>),
    Collected(Result<(), PSP22Error>),
}

/// The answer fits the call made at `stage`.
pub open spec fn loan_answer_fits(stage: LoanStage, answer: LoanAnswer) -> bool {
    match stage {
        LoanStage::TakingCash => answer is CashTaken,
        LoanStage::Calling { .. } => answer is Called,
        LoanStage::Collecting => answer is Collected,
    }
}

impl Admin {
    /// Every table is a proper map.
    pub open spec fn wf(&self) -> bool {
        self.prices.wf() && self.params.wf()
    }

    /// The price of `asset` as `(price, price_scaler)`: zero (with a scaler
    /// of one) until the DAO pushes one.
    pub open spec fn price_of(&self, asset: AccountId) -> (u128, u128) {
        match lookup(self.prices@, asset) {
            Some(p) => p,
            None => (0, 1),
        }
    }

    /// The parameters of `asset`: all zero until the DAO pushes some.
    pub open spec fn params_of(&self, asset: AccountId) -> AssetParams {
        match lookup(self.params@, asset) {
            Some(p) => p,
            None => AssetParams::zero_spec(),
        }
    }

    /// An admin at address `this` created by the DAO `caller`, with the pool
    /// code `hash`; the ring holds only the admin itself.
    pub fn new(caller: AccountId, this: AccountId, hash: [u8; 32]) -> (a: Self)
        ensures
            a.wf(),
            a.dao == caller,
            a.hash == hash,
            a.next == this,
            a.prices@ == Map::<AccountId, (u128, u128)>::empty(),
            a.params@ == Map::<AccountId, AssetParams>::empty(),
    {
        Admin { dao: caller, hash, next: this, prices: KeyMap::new(), params: KeyMap::new() }
    }

    /// The DAO `caller` adds a pool of `underlying` at the head of the
    /// ring: the pool to create (see [`Self::asset_added`] for what follows).
    pub fn add_asset(&self, caller: AccountId, underlying: AccountId, gas_collateral: u128) -> (r: Result<
        AssetInstantiation,
        AdminError,
    >)
        ensures
            caller != self.dao ==> r == Err::<AssetInstantiation, AdminError>(
                AdminError::AddAssetUnauthorized,
            ),
            caller == self.dao ==> r == Ok::<AssetInstantiation, AdminError>(
                AssetInstantiation { underlying, next: self.next, gas_collateral, code_hash: self.hash },
            ),
    {
        if let Err(e) = crate::wide::require(caller == self.dao, AdminError::AddAssetUnauthorized) {
            return Err(e);
        }
        Ok(AssetInstantiation { underlying, next: self.next, gas_collateral, code_hash: self.hash })
    }

    /// The pool at `contract` was created: it heads the ring now.
    pub fn asset_added(&mut self, contract: AccountId)
        ensures
            *final(self) == (Admin { next: contract, ..*old(self) }),
    {
        self.next = contract;
    }

    /// The price that goes to the pool `current` as the admin at `this`
    /// walks the ring: none once the walk is back at the admin. The pool
    /// answers with the next member of the ring.
    pub fn pull_prices_step(&self, this: AccountId, current: AccountId) -> (r: Option<(AccountId, u128, u128)>)
        requires
            self.wf(),
        ensures
            current == this ==> r is None,
            current != this ==> r == Some(
                (current, self.price_of(current).0, self.price_of(current).1),
            ),
    {
        if current == this {
            return None;
        }
        let (price, price_scaler) = match self.prices.get(&current) {
            Some(p) => p,
            None => (0, 1),
        };
        Some((current, price, price_scaler))
    }

    /// The DAO `caller` sets the price of `asset`: the one that
    /// [`Self::pull_prices_step`] hands the asset from then on.
    pub fn push_price(&mut self, caller: AccountId, asset: AccountId, price: u128, price_scaler: u128) -> (r:
        Result<(), AdminError>)
        requires
            old(self).wf(),
        ensures
            final(self).wf(),
            caller != old(self).dao ==> r == Err::<(), AdminError>(AdminError::PushPriceUnauthorized)
                && final(self).prices@ == old(self).prices@,
            caller == old(self).dao ==> r is Ok && final(self).prices@ == old(self).prices@.insert(
                asset,
                (price, price_scaler),
            ),
            caller == old(self).dao ==> final(self).price_of(asset) == (price, price_scaler),
            final(self).params@ == old(self).params@,
            final(self).dao == old(self).dao && final(self).next == old(self).next
                && final(self).hash == old(self).hash,
    {
        if let Err(e) = crate::wide::require(caller == self.dao, AdminError::PushPriceUnauthorized) {
            return Err(e);
        }
        self.prices.insert(asset, (price, price_scaler));
        Ok(())
    }

    /// The DAO `caller` sets the parameters of `asset`: the ones that
    /// [`Self::pull_params_step`] hands the asset from then on.
    pub fn push_params(&mut self, caller: AccountId, asset: AccountId, params: AssetParams) -> (r: Result<
        (),
        AdminError,
    >)
        requires
            old(self).wf(),
        ensures
            final(self).wf(),
            caller != old(self).dao ==> r == Err::<(), AdminError>(AdminError::PushParamsUnauthorized)
                && final(self).params@ == old(self).params@,
            caller == old(self).dao ==> r is Ok && final(self).params@ == old(self).params@.insert(
                asset,
                params,
            ),
            caller == old(self).dao ==> final(self).params_of(asset) == params,
            final(self).prices@ == old(self).prices@,
            final(self).dao == old(self).dao && final(self).next == old(self).next
                && final(self).hash == old(self).hash,
    {
        if let Err(e) = crate::wide::require(caller == self.dao, AdminError::PushParamsUnauthorized) {
            return Err(e);
        }
        self.params.insert(asset, params);
        Ok(())
    }

    /// The parameters that go to the pool `current` as the admin at `this`
    /// walks the ring: none once the walk is back at the admin. The pool
    /// answers with the next member of the ring.
    pub fn pull_params_step(&self, this: AccountId, current: AccountId) -> (r: Option<(AccountId, AssetParams)>)
        requires
            self.wf(),
        ensures
            current == this ==> r is None,
            current != this ==> r == Some((current, self.params_of(current))),
    {
        if current == this {
            return None;
        }
        let params = match self.params.get(&current) {
            Some(p) => p,
            None => AssetParams::default(),
        };
        Some((current, params))
    }

    /// The first call of a flash loan of `amount` from `pool` to `target`.
    pub fn flash_loan_start(&self, target: AccountId, pool: AccountId, amount: u128) -> (r: (
        LoanStage,
        LoanCall,
    ))
        ensures
            r == (LoanStage::TakingCash, LoanCall::TakeCash { pool, amount, target }),
    {
        (LoanStage::TakingCash, LoanCall::TakeCash { pool, amount, target })
    }

    /// The call after the one made at `stage` in a flash loan of `amount`
    /// from `pool` to `target` that `caller` asked for, once it got
    /// `answer`: the pool sends the cash and names its token and fee, the
    /// target is told, and the amount with the fee goes from the target back
    /// to the pool. A failed call ends the loan with its error; `None` when
    /// the loan is done.
    pub fn flash_loan_next(
        &self,
        caller: AccountId,
        target: AccountId,
        pool: AccountId,
        amount: u128,
        stage: LoanStage,
        answer: LoanAnswer,
    ) -> (r: Result<Option<(LoanStage, LoanCall)>, FlashLoanError>)
        requires
            loan_answer_fits(stage, answer),
        ensures
            match answer {
                LoanAnswer::CashTaken(Err(e)) => r matches Err(FlashLoanError::TakeCashFailed(x)) && x
                    == e,
                LoanAnswer::CashTaken(Ok((token, fee))) => r == Ok::<
                    Option<(LoanStage, LoanCall)>,
                    FlashLoanError,
                >(
                    Some(
                        (
                            LoanStage::Calling { token, fee },
                            LoanCall::OnFlashLoan { target, initiator: caller, token, amount, fee },
                        ),
                    ),
                ),
                LoanAnswer::Called(Err(e)) => r matches Err(FlashLoanError::ReceiverFailed(x)) && x
                    == e,
                LoanAnswer::Called(Ok(_)) => match stage {
                    LoanStage::Calling { token, fee } => if amount + fee > u128::MAX {
                        r matches Err(FlashLoanError::Overflow)
                    } else {
                        r == Ok::<Option<(LoanStage, LoanCall)>, FlashLoanError>(
                            Some(
                                (
                                    LoanStage::Collecting,
                                    LoanCall::TransferFrom {
                                        token,
                                        from: target,
                                        to: pool,
                                        amount: (amount + fee) as u128,
                                    },
                                ),
                            ),
                        )
                    },
                    _ => false,
                },
                LoanAnswer::Collected(Err(e)) => r matches Err(FlashLoanError::TransferFailed(x)) && x
                    == e,
                LoanAnswer::Collected(Ok(_)) => r == Ok::<
                    Option<(LoanStage, LoanCall)>,
                    FlashLoanError,
                >(None),
            },
    {
        match answer {
            LoanAnswer::CashTaken(Err(e)) => Err(FlashLoanError::TakeCashFailed(e)),
            LoanAnswer::CashTaken(Ok((token, fee))) => Ok(
                Some(
                    (
                        LoanStage::Calling { token, fee },
                        LoanCall::OnFlashLoan { target, initiator: caller, token, amount, fee },
                    ),
                ),
            ),
            LoanAnswer::Called(Err(e)) => Err(FlashLoanError::ReceiverFailed(e)),
            LoanAnswer::Called(Ok(_)) => match stage {
                LoanStage::Calling { token, fee } => match amount.checked_add(fee) {
                    Some(back) => Ok(
                        Some(
                            (
                                LoanStage::Collecting,
                                LoanCall::TransferFrom { token, from: target, to: pool, amount: back },
                            ),
                        ),
                    ),
                    None => Err(FlashLoanError::Overflow),
                },
                _ => Err(FlashLoanError::Overflow),
            },
            LoanAnswer::Collected(Err(e)) => Err(FlashLoanError::TransferFailed(e)),
            LoanAnswer::Collected(Ok(_)) => Ok(None),
        }
    }

    /// The admin's report as a member of the ring: nothing about any user.
    pub fn update(&self, _user: AccountId) -> (r: UpdateResult)
        ensures
            r == (UpdateResult { next: self.next, initial_collateral_value: 0, initial_debt_value: 0 }),
    {
        UpdateResult::new(self.next)
    }

    /// The admin's report during a liquidation: nothing repaid, nothing
    /// about any user.
    pub fn repay_or_update(&self, _user: AccountId, _cash_owner: AccountId) -> (r: RepayOrUpdateResult)
        ensures
            r == (RepayOrUpdateResult {
                next: self.next,
                repaid: 0,
                initial_collateral_value: 0,
                initial_debt_value: 0,
                maintenance_collateral_value: 0,
                maintenance_debt_value: 0,
            }),
    {
        RepayOrUpdateResult::new(self.next)
    }
}

} // verus!
