//! The pool's shares as a PSP22 token: balances, allowances, transfers and
//! the token's metadata.
use vstd::prelude::*;
use crate::account::{AccountId, AccountPair};
use crate::errors::PSP22Error;
use crate::lasset::LAssetContract;
use crate::structs::{Approval, Transfer};

verus! {

/// `a` lowered by `d`, at least to zero.
pub open spec fn lowered(a: u128, d: u128) -> u128 {
    if a >= d {
        (a - d) as u128
    } else {
        0
    }
}

impl LAssetContract {
    /// The allowance that `owner` gave `spender`, zero when there is none.
    pub open spec fn allowance_of(&self, owner: AccountId, spender: AccountId) -> u128 {
        if self.allowance@.contains_key(AccountPair { owner, spender }) {
            self.allowance@[AccountPair { owner, spender }]
        } else {
            0
        }
    }

    /// The shares of all holders together.
    pub fn total_supply(&self) -> (r: u128)
        ensures
            r == self.total_shares,
    {
        self.total_shares
    }

    /// The shares of `owner`.
    pub fn balance_of(&self, owner: AccountId) -> (r: u128)
        requires
            self.wf(),
        ensures
            r == Self::value_or_zero(self.shares@, owner),
    {
        self.shares.get(&owner).unwrap_or(0)
    }

    /// How many shares of `owner` `spender` may move.
    pub fn allowance(&self, owner: AccountId, spender: AccountId) -> (r: u128)
        requires
            self.wf(),
        ensures
            r == self.allowance_of(owner, spender),
    {
        self.allowance.get(&AccountPair { owner, spender }).unwrap_or(0)
    }

    /// The shares after moving `value` from `from` to another holder `to`.
    pub open spec fn moved(shares: Map<AccountId, u128>, from: AccountId, to: AccountId, value: u128) -> Map<
        AccountId,
        u128,
    > {
        shares.insert(from, (Self::value_or_zero(shares, from) - value) as u128).insert(
            to,
            (Self::value_or_zero(shares, to) + value) as u128,
        )
    }

    /// Moves `value` shares from `from` to `to`, who differ; `from` holds at
    /// least `value`.
    fn move_shares(&mut self, from: AccountId, to: AccountId, value: u128)
        requires
            old(self).wf(),
            from != to,
            value <= Self::value_or_zero(old(self).shares@, from),
        ensures
            final(self).wf(),
            *final(self) == (LAssetContract { shares: final(self).shares, ..*old(self) }),
            final(self).shares@ == Self::moved(old(self).shares@, from, to, value),
    {
        proof {
            self.shares.lemma_two_values_le_total(from, to);
        }
        let from_shares = self.shares.get(&from).unwrap_or(0);
        let to_shares = self.shares.get(&to).unwrap_or(0);
        self.shares.insert_value(from, from_shares - value);
        self.shares.insert_value(to, to_shares + value);
    }

    /// `caller` sends `value` of its shares to `to`. Fails when the caller
    /// holds fewer; moving shares to oneself changes nothing and emits no
    /// event.
    pub fn transfer(&mut self, caller: AccountId, to: AccountId, value: u128, _data: Vec<u8>) -> (r:
        Result<Option<Transfer>, PSP22Error>)
        requires
            old(self).wf(),
        ensures
            final(self).wf(),
            value > Self::value_or_zero(old(self).shares@, caller) ==> r == Err::<
                Option<Transfer>,
                PSP22Error,
            >(PSP22Error::InsufficientBalance) && *final(self) == *old(self),
            value <= Self::value_or_zero(old(self).shares@, caller) && caller == to ==> r == Ok::<
                Option<Transfer>,
                PSP22Error,
            >(None) && *final(self) == *old(self),
            value <= Self::value_or_zero(old(self).shares@, caller) && caller != to ==> {
                &&& r == Ok::<Option<Transfer>, PSP22Error>(
                    Some(Transfer { from: Some(caller), to: Some(to), value }),
                )
                &&& *final(self) == (LAssetContract { shares: final(self).shares, ..*old(self) })
                &&& final(self).shares@ == Self::moved(old(self).shares@, caller, to, value)
            },
    {
        let from_shares = self.shares.get(&caller).unwrap_or(0);
        if from_shares < value {
            return Err(PSP22Error::InsufficientBalance);
        }
        if caller == to {
            return Ok(None);
        }
        self.move_shares(caller, to, value);
        Ok(Some(Transfer { from: Some(caller), to: Some(to), value }))
    }

    /// Moves `value` shares of `from` to `to`, spending the allowance that
    /// `from` gave `to`. Fails when that allowance, or the balance of `from`,
    /// is short of `value`; moving shares to oneself changes nothing and
    /// emits no event. Otherwise returns the new allowance and the transfer.
    pub fn transfer_from(
        &mut self,
        from: AccountId,
        to: AccountId,
        value: u128,
        _data: Vec<u8>,
    ) -> (r: Result<Option<(Approval, Transfer)>, PSP22Error>)
        requires
            old(self).wf(),
        ensures
            final(self).wf(),
            ({
                let allowance = old(self).allowance_of(from, to);
                let balance = Self::value_or_zero(old(self).shares@, from);
                if value > allowance {
                    &&& r == Err::<Option<(Approval, Transfer)>, PSP22Error>(
                        PSP22Error::InsufficientAllowance,
                    )
                    &&& *final(self) == *old(self)
                } else if value > balance {
                    &&& r == Err::<Option<(Approval, Transfer)>, PSP22Error>(
                        PSP22Error::InsufficientBalance,
                    )
                    &&& *final(self) == *old(self)
                } else if from == to {
                    &&& r == Ok::<Option<(Approval, Transfer)>, PSP22Error>(None)
                    &&& *final(self) == *old(self)
                } else {
                    let new_allowance = (allowance - value) as u128;
                    &&& r == Ok::<Option<(Approval, Transfer)>, PSP22Error>(
                        Some(
                            (
                                Approval { owner: from, spender: to, amount: new_allowance },
                                Transfer { from: Some(from), to: Some(to), value },
                            ),
                        ),
                    )
                    &&& *final(self) == (LAssetContract {
                        shares: final(self).shares,
                        allowance: final(self).allowance,
                        ..*old(self)
                    })
                    &&& final(self).shares@ == Self::moved(old(self).shares@, from, to, value)
                    &&& final(self).allowance@ == old(self).allowance@.insert(
                        AccountPair { owner: from, spender: to },
                        new_allowance,
                    )
                }
            }),
    {
        let from_shares = self.shares.get(&from).unwrap_or(0);
        let pair = AccountPair { owner: from, spender: to };
        let allowance = self.allowance.get(&pair).unwrap_or(0);
        if allowance < value {
            return Err(PSP22Error::InsufficientAllowance);
        }
        let new_allowance = allowance - value;
        if from_shares < value {
            return Err(PSP22Error::InsufficientBalance);
        }
        if from == to {
            return Ok(None);
        }
        self.move_shares(from, to, value);
        self.allowance.insert(pair, new_allowance);
        Ok(
            Some(
                (
                    Approval { owner: from, spender: to, amount: new_allowance },
                    Transfer { from: Some(from), to: Some(to), value },
                ),
            ),
        )
    }

    /// Sets the allowance of `spender` over the shares of `caller`.
    fn set_allowance(&mut self, caller: AccountId, spender: AccountId, amount: u128) -> (r: Approval)
        requires
            old(self).wf(),
        ensures
            final(self).wf(),
            r == (Approval { owner: caller, spender, amount }),
            *final(self) == (LAssetContract { allowance: final(self).allowance, ..*old(self) }),
            final(self).allowance@ == old(self).allowance@.insert(
                AccountPair { owner: caller, spender },
                amount,
            ),
    {
        self.allowance.insert(AccountPair { owner: caller, spender }, amount);
        Approval { owner: caller, spender, amount }
    }

    /// `caller` lets `spender` move `value` of its shares.
    pub fn approve(&mut self, caller: AccountId, spender: AccountId, value: u128) -> (r: Result<
        Approval,
        PSP22Error,
    >)
        requires
            old(self).wf(),
        ensures
            final(self).wf(),
            r == Ok::<Approval, PSP22Error>(Approval { owner: caller, spender, amount: value }),
            final(self).allowance_of(caller, spender) == value,
            *final(self) == (LAssetContract { allowance: final(self).allowance, ..*old(self) }),
            final(self).allowance@ == old(self).allowance@.insert(
                AccountPair { owner: caller, spender },
                value,
            ),
    {
        Ok(self.set_allowance(caller, spender, value))
    }

    /// `caller` raises the allowance of `spender` by `delta_value`, at most
    /// to `u128::MAX`.
    pub fn increase_allowance(&mut self, caller: AccountId, spender: AccountId, delta_value: u128) -> (r:
        Result<Approval, PSP22Error>)
        requires
            old(self).wf(),
        ensures
            final(self).wf(),
            ({
                let amount = crate::valuation::sat(
                    old(self).allowance_of(caller, spender) + delta_value,
                );
                &&& final(self).allowance_of(caller, spender) == amount
                &&& r == Ok::<Approval, PSP22Error>(Approval { owner: caller, spender, amount })
                &&& *final(self) == (LAssetContract {
                    allowance: final(self).allowance,
                    ..*old(self)
                })
                &&& final(self).allowance@ == old(self).allowance@.insert(
                    AccountPair { owner: caller, spender },
                    amount,
                )
            }),
    {
        let allowance = self.allowance.get(&AccountPair { owner: caller, spender }).unwrap_or(0);
        Ok(self.set_allowance(caller, spender, allowance.saturating_add(delta_value)))
    }

    /// `caller` lowers the allowance of `spender` by `delta_value`, at least
    /// to zero.
    pub fn decrease_allowance(&mut self, caller: AccountId, spender: AccountId, delta_value: u128) -> (r:
        Result<Approval, PSP22Error>)
        requires
            old(self).wf(),
        ensures
            final(self).wf(),
            ({
                let amount = lowered(old(self).allowance_of(caller, spender), delta_value);
                &&& final(self).allowance_of(caller, spender) == amount
                &&& r == Ok::<Approval, PSP22Error>(Approval { owner: caller, spender, amount })
                &&& *final(self) == (LAssetContract {
                    allowance: final(self).allowance,
                    ..*old(self)
                })
                &&& final(self).allowance@ == old(self).allowance@.insert(
                    AccountPair { owner: caller, spender },
                    amount,
                )
            }),
    {
        let allowance = self.allowance.get(&AccountPair { owner: caller, spender }).unwrap_or(0);
        Ok(self.set_allowance(caller, spender, allowance.saturating_sub(delta_value)))
    }

    /// The token's name.
    pub fn token_name(&self) -> (r: Option<String>)
        ensures
            r == self.name,
    {
        self.name.clone()
    }

    /// The token's symbol.
    pub fn token_symbol(&self) -> (r: Option<String>)
        ensures
            r == self.symbol,
    {
        self.symbol.clone()
    }

    /// The token's decimals.
    pub fn token_decimals(&self) -> (r: u8)
        ensures
            r == self.decimals,
    {
        self.decimals
    }
}

} // verus!
