//! A pool that issues shares of one token: depositors get shares in
//! proportion to what the pool holds, and a manager lends the pool's tokens
//! out and takes them back.
//!
//! The share ledger itself and the token balances are kept by token
//! contracts; the caller of these functions reads and moves them and hands
//! the figures and outcomes in.
use vstd::prelude::*;
use crate::account::AccountId;
use crate::errors::{AssetPoolError, PSP22Error};
use crate::wide::{limb, mulw};

verus! {

/// Event: `value` shares moved from `from` to `to` (`None` for minting and
/// burning).
#[derive(Debug, Clone, Copy)]
pub struct Transfer {
    pub from: Option<AccountId>,
    pub to: Option<AccountId>,
    pub value: u128,
}

/// Event: `owner` allows `spender` to move `amount` of its shares.
#[derive(Debug, Clone, Copy)]
pub struct Approval {
    pub owner: AccountId,
    pub spender: AccountId,
    pub amount: u128,
}

/// What the pool itself records: its manager, its token, and how much of
/// it is lent out.
#[derive(Debug, Clone, Copy)]
pub struct PoolData {
    pub manager: AccountId,
    pub token: AccountId,
    pub total_borrowed: u128,
}

/// The pool.
#[derive(Debug, Clone, Copy)]
pub struct Pool {
    pub data: PoolData,
}

/// `m1 * d / m2`, rounded down: an error when the quotient does not fit in
/// 128 bits.
pub open spec fn ratio_spec(m1: u128, m2: u128, d: u128) -> Result<u128, AssetPoolError>
    recommends
        m2 != 0,
{
    if m1 * d / (m2 as int) >= limb() {
        Err(AssetPoolError::RatioCalculationError)
    } else {
        Ok((m1 * d / (m2 as int)) as u128)
    }
}

/// `m1 * d / m2` computed exactly, rounded down; an error when the quotient
/// does not fit in 128 bits. The divisor is `m2`, which must not be zero.
pub fn ratio(m1: u128, m2: u128, d: u128) -> (r: Result<u128, AssetPoolError>)
    requires
        m2 != 0,
    ensures
        r == ratio_spec(m1, m2, d),
{
    match mulw(m1, d).div(m2) {
        Some(v) => Ok(v),
        None => Err(AssetPoolError::RatioCalculationError),
    }
}

impl Pool {
    /// A pool of `token` managed by `manager`, with nothing lent.
    pub fn new(manager: AccountId, token: AccountId) -> (p: Self)
        ensures
            p.data == (PoolData { manager, token, total_borrowed: 0 }),
    {
        Pool { data: PoolData { manager, token, total_borrowed: 0 } }
    }

    /// What the pool owns: the tokens it holds (`balance`) and those lent
    /// out.
    pub fn total_deposited(&self, balance: u128) -> (r: u128)
        requires
            balance + self.data.total_borrowed <= u128::MAX,
        ensures
            r == balance + self.data.total_borrowed,
    {
        balance + self.data.total_borrowed
    }

    /// The shares that a deposit of `amount` earns, when `total_supply`
    /// shares exist and the pool holds `balance` tokens (before the
    /// deposit): [`ratio`]`(amount, total_supply, balance)`, which is
    /// `amount * balance / total_supply`. The first deposit earns the amount and whatever the
    /// pool owns already, so that nobody can inflate the value of a share
    /// before it.
    pub fn deposit(&self, amount: u128, total_supply: u128, balance: u128) -> (r: Result<
        u128,
        AssetPoolError,
    >)
        requires
            total_supply == 0 ==> amount + balance + self.data.total_borrowed <= u128::MAX,
        ensures
            total_supply == 0 ==> r == Ok::<u128, AssetPoolError>(
                (amount + balance + self.data.total_borrowed) as u128,
            ),
            total_supply != 0 ==> r == ratio_spec(amount, total_supply, balance),
    {
        if total_supply == 0 {
            Ok(amount + self.total_deposited(balance))
        } else {
            ratio(amount, total_supply, balance)
        }
    }

    /// The tokens that burning `shares` returns, when `total_supply` shares
    /// exist and the pool holds `balance` tokens:
    /// [`ratio`]`(total_deposited, shares, total_supply)`, which is
    /// `total_deposited * total_supply / shares`, where `total_deposited` is
    /// all the pool owns. Burning no shares is not allowed.
    pub fn withdraw(&self, shares: u128, total_supply: u128, balance: u128) -> (r: Result<
        u128,
        AssetPoolError,
    >)
        requires
            shares != 0,
            balance + self.data.total_borrowed <= u128::MAX,
        ensures
            r == ratio_spec((balance + self.data.total_borrowed) as u128, shares, total_supply),
    {
        let total_deposited = self.total_deposited(balance);
        ratio(total_deposited, shares, total_supply)
    }

    /// The manager `caller` lends `amount` to another account. The loan is
    /// booked, then the tokens go out: `sent` is the outcome of that
    /// transfer, and a failed transfer is reported with the loan booked.
    pub fn borrow_to(&mut self, caller: AccountId, amount: u128, sent: Result<(), PSP22Error>) -> (r:
        Result<(), AssetPoolError>)
        requires
            caller == old(self).data.manager ==> old(self).data.total_borrowed + amount <= u128::MAX,
        ensures
            caller != old(self).data.manager ==> r == Err::<(), AssetPoolError>(
                AssetPoolError::Unauthorized,
            ) && *final(self) == *old(self),
            caller == old(self).data.manager ==> final(self).data == (PoolData {
                total_borrowed: (old(self).data.total_borrowed + amount) as u128,
                ..old(self).data
            }) && r == match sent {
                Err(e) => Err::<(), AssetPoolError>(AssetPoolError::PSP22Error(e)),
                Ok(_) => Ok::<(), AssetPoolError>(()),
            },
    {
        if caller != self.data.manager {
            return Err(AssetPoolError::Unauthorized);
        }
        self.data.total_borrowed = self.data.total_borrowed + amount;
        match sent {
            Err(e) => Err(AssetPoolError::from(e)),
            Ok(_) => Ok(()),
        }
    }

    /// The manager `caller` takes `amount` back from another account. The
    /// repayment is booked, then the tokens are pulled in: `pulled` is the
    /// outcome of that transfer, and a failed transfer is reported with the
    /// repayment booked.
    pub fn repay_from(&mut self, caller: AccountId, amount: u128, pulled: Result<(), PSP22Error>) -> (r:
        Result<(), AssetPoolError>)
        requires
            caller == old(self).data.manager ==> amount <= old(self).data.total_borrowed,
        ensures
            caller != old(self).data.manager ==> r == Err::<(), AssetPoolError>(
                AssetPoolError::Unauthorized,
            ) && *final(self) == *old(self),
            caller == old(self).data.manager ==> final(self).data == (PoolData {
                total_borrowed: (old(self).data.total_borrowed - amount) as u128,
                ..old(self).data
            }) && r == match pulled {
                Err(e) => Err::<(), AssetPoolError>(AssetPoolError::PSP22Error(e)),
                Ok(_) => Ok::<(), AssetPoolError>(()),
            },
    {
        if caller != self.data.manager {
            return Err(AssetPoolError::Unauthorized);
        }
        self.data.total_borrowed = self.data.total_borrowed - amount;
        match pulled {
            Err(e) => Err(AssetPoolError::from(e)),
            Ok(_) => Ok(()),
        }
    }
}

} // verus!
