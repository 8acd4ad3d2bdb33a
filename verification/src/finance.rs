//! A ledger of several tokens, driven by the token contracts themselves.
//!
//! Each supported token has a contract address that reports its users'
//! actions to the ledger: deposits and withdrawals of balance, investments
//! (balance lent to the pool) and their redeposit, borrows and their
//! redemption. The ledger keeps per-user, per-token and per-user totals, and
//! the values of each user's totals at the token prices, which an oracle
//! feeds. Prices are confirmed block by block: within a block, each token
//! whose price a user's action touches is re-priced for that user, and a
//! user may only act once all its holdings are priced at the current block.
//! Borrows accrue interest through cumulative rates, kept per token and per
//! user as 64-bit fixed-point numbers (one is `u64::MAX`).
use vstd::prelude::*;
use crate::account::{AccountId, TokenAccount};
use crate::errors::FinanceError;
use crate::map::{KeyMap, MapKey};
use crate::wide::{limb, ceil_div, mulw};

verus! {

/// The value of `k` in `m`, if any.
pub open spec fn lookup<K, V>(m: Map<K, V>, k: K) -> Option<V> {
    if m.contains_key(k) {
        Some(m[k])
    } else {
        None
    }
}

/// The value in `o`, zero when there is none.
pub open spec fn or_zero(o: Option<u128>) -> u128 {
    match o {
        Some(v) => v,
        None => 0,
    }
}

/// An entry grown by `amount`: a missing entry starts at `amount`; an
/// overflow is the error `overflow`.
pub open spec fn grow(cur: Option<u128>, amount: u128, overflow: FinanceError) -> Result<
    u128,
    FinanceError,
> {
    match cur {
        Some(v) => if v + amount <= u128::MAX {
            Ok((v + amount) as u128)
        } else {
            Err(overflow)
        },
        None => Ok(amount),
    }
}

/// An entry reduced by `amount`: more than it holds is the error
/// `too_much`, a missing entry the error `nothing`.
pub open spec fn shrink(
    cur: Option<u128>,
    amount: u128,
    too_much: FinanceError,
    nothing: FinanceError,
) -> Result<u128, FinanceError> {
    match cur {
        Some(v) => if amount <= v {
            Ok((v - amount) as u128)
        } else {
            Err(too_much)
        },
        None => Err(nothing),
    }
}

/// A new value paired with the old one (zero when there was none).
pub open spec fn with_old(r: Result<u128, FinanceError>, cur: Option<u128>) -> Result<
    (u128, u128),
    FinanceError,
> {
    match r {
        Ok(n) => Ok((n, or_zero(cur))),
        Err(e) => Err(e),
    }
}

/// The total value of a user's holdings after one of them changes from
/// `old` to `new` units, at `price` per unit: the error `empty` when the user
/// has no total value, `cur_overflow` when the old holding's value
/// overflows, `reduction` when it exceeds the total, `new_overflow` when the
/// new holding's value overflows and `total_overflow` when the new total
/// does.
pub open spec fn revalued(
    total: Option<u128>,
    price: u128,
    new: u128,
    old: u128,
    empty: FinanceError,
    cur_overflow: FinanceError,
    reduction: FinanceError,
    new_overflow: FinanceError,
    total_overflow: FinanceError,
) -> Result<u128, FinanceError> {
    match total {
        None => Err(empty),
        Some(t) => if old * price > u128::MAX {
            Err(cur_overflow)
        } else if t < old * price {
            Err(reduction)
        } else if new * price > u128::MAX {
            Err(new_overflow)
        } else if t - old * price + new * price > u128::MAX {
            Err(total_overflow)
        } else {
            Ok((t - old * price + new * price) as u128)
        },
    }
}

fn grow_entry<K: MapKey>(m: &KeyMap<K, u128>, k: &K, amount: u128, overflow: FinanceError) -> (r:
    Result<u128, FinanceError>)
    requires
        m.wf(),
    ensures
        r == grow(lookup(m@, *k), amount, overflow),
{
    match m.get(k) {
        Some(v) => match v.checked_add(amount) {
            Some(n) => Ok(n),
            None => Err(overflow),
        },
        None => Ok(amount),
    }
}

fn shrink_entry<K: MapKey>(
    m: &KeyMap<K, u128>,
    k: &K,
    amount: u128,
    too_much: FinanceError,
    nothing: FinanceError,
) -> (r: Result<u128, FinanceError>)
    requires
        m.wf(),
    ensures
        r == shrink(lookup(m@, *k), amount, too_much, nothing),
{
    match m.get(k) {
        Some(v) => match v.checked_sub(amount) {
            Some(n) => Ok(n),
            None => Err(too_much),
        },
        None => Err(nothing),
    }
}

fn with_old_entry<K: MapKey>(m: &KeyMap<K, u128>, k: &K, r: Result<u128, FinanceError>) -> (res:
    Result<(u128, u128), FinanceError>)
    requires
        m.wf(),
    ensures
        res == with_old(r, lookup(m@, *k)),
{
    match r {
        Ok(n) => Ok((n, m.get(k).unwrap_or(0))),
        Err(e) => Err(e),
    }
}

fn revalue(
    total: Option<u128>,
    price: u128,
    new: u128,
    old: u128,
    empty: FinanceError,
    cur_overflow: FinanceError,
    reduction: FinanceError,
    new_overflow: FinanceError,
    total_overflow: FinanceError,
) -> (r: Result<u128, FinanceError>)
    ensures
        r == revalued(
            total,
            price,
            new,
            old,
            empty,
            cur_overflow,
            reduction,
            new_overflow,
            total_overflow,
        ),
{
    let t = match total {
        Some(t) => t,
        None => {
            return Err(empty);
        },
    };
    let old_value = match old.checked_mul(price) {
        Some(v) => v,
        None => {
            return Err(cur_overflow);
        },
    };
    let base = match t.checked_sub(old_value) {
        Some(v) => v,
        None => {
            return Err(reduction);
        },
    };
    let new_value = match new.checked_mul(price) {
        Some(v) => v,
        None => {
            return Err(new_overflow);
        },
    };
    match base.checked_add(new_value) {
        Some(v) => Ok(v),
        None => Err(total_overflow),
    }
}

/// The ledger.
pub struct Finance {
    pub admin: AccountId,
    pub oracle: AccountId,
    pub balances: KeyMap<AccountId, u128>,
    pub user_balances: KeyMap<TokenAccount, u128>,
    pub invested: KeyMap<AccountId, u128>,
    pub user_invested: KeyMap<TokenAccount, u128>,
    pub borrowed: KeyMap<AccountId, u128>,
    pub user_borrowed: KeyMap<TokenAccount, u128>,
    pub tokens: KeyMap<AccountId, bool>,
    pub token_addresses: KeyMap<AccountId, AccountId>,
    pub prices: KeyMap<AccountId, u128>,
    pub oracle_prices: KeyMap<AccountId, u128>,
    pub updated_at: u32,
    pub user_updated_at: KeyMap<AccountId, u32>,
    pub prices_updated_at: KeyMap<AccountId, u32>,
    pub user_total_balance: KeyMap<AccountId, u128>,
    pub user_total_invested: KeyMap<AccountId, u128>,
    pub user_total_borrowed: KeyMap<AccountId, u128>,
    pub user_unpriced_balance: KeyMap<AccountId, u128>,
    pub user_unpriced_invested: KeyMap<AccountId, u128>,
    pub user_unpriced_borrowed: KeyMap<AccountId, u128>,
    pub user_total_balance_value: KeyMap<AccountId, u128>,
    pub user_total_invested_value: KeyMap<AccountId, u128>,
    pub user_total_borrowed_value: KeyMap<AccountId, u128>,
    pub standard_rates: KeyMap<AccountId, u128>,
    pub cumulative_borrow_rate: KeyMap<AccountId, u128>,
    pub cumulative_invest_rate: KeyMap<AccountId, u128>,
    pub user_cumulative_borrow_rate: KeyMap<TokenAccount, u128>,
    pub user_cumulative_invest_rate: KeyMap<TokenAccount, u128>,
}

/// The new state of one kind of holding (balance, investment or borrow)
/// after a user's action on a token: the user's amount of the token, the
/// token's amount over all users, the user's total over all tokens, and the
/// value of that total.
#[derive(Clone, Copy, Debug)]
pub struct Holding {
    pub user_amount: u128,
    pub token_amount: u128,
    pub user_total: u128,
    pub user_value: u128,
}

/// What re-pricing a token for a user changes: the block records, the
/// token's borrowed and invested amounts with interest, the cumulative
/// rates, the user's borrow and investment of the token and totals, what is
/// left unpriced of the user's holdings, and their values.
#[derive(Clone, Copy, Debug)]
pub struct PriceUpdate {
    pub new_updated_at: Option<u32>,
    pub new_price_updated_at: Option<(u32, u128, u32)>,
    pub new_user_updated_at: Option<u32>,
    pub borrowed: u128,
    pub invested: u128,
    pub cumulative_borrow_rate: u128,
    pub cumulative_invest_rate: u128,
    pub user_borrowed: u128,
    pub user_invested: u128,
    pub user_total_borrowed: u128,
    pub user_total_invested: u128,
    pub unpriced_balance: u128,
    pub unpriced_invested: u128,
    pub unpriced_borrowed: u128,
    pub total_balance_value: u128,
    pub total_invested_value: u128,
    pub total_borrowed_value: u128,
}

/// The ledger's tables as maps.
pub ghost struct FinanceView {
    pub admin: AccountId,
    pub oracle: AccountId,
    pub balances: Map<AccountId, u128>,
    pub user_balances: Map<TokenAccount, u128>,
    pub invested: Map<AccountId, u128>,
    pub user_invested: Map<TokenAccount, u128>,
    pub borrowed: Map<AccountId, u128>,
    pub user_borrowed: Map<TokenAccount, u128>,
    pub tokens: Map<AccountId, bool>,
    pub token_addresses: Map<AccountId, AccountId>,
    pub prices: Map<AccountId, u128>,
    pub oracle_prices: Map<AccountId, u128>,
    pub updated_at: u32,
    pub user_updated_at: Map<AccountId, u32>,
    pub prices_updated_at: Map<AccountId, u32>,
    pub user_total_balance: Map<AccountId, u128>,
    pub user_total_invested: Map<AccountId, u128>,
    pub user_total_borrowed: Map<AccountId, u128>,
    pub user_unpriced_balance: Map<AccountId, u128>,
    pub user_unpriced_invested: Map<AccountId, u128>,
    pub user_unpriced_borrowed: Map<AccountId, u128>,
    pub user_total_balance_value: Map<AccountId, u128>,
    pub user_total_invested_value: Map<AccountId, u128>,
    pub user_total_borrowed_value: Map<AccountId, u128>,
    pub standard_rates: Map<AccountId, u128>,
    pub cumulative_borrow_rate: Map<AccountId, u128>,
    pub cumulative_invest_rate: Map<AccountId, u128>,
    pub user_cumulative_borrow_rate: Map<TokenAccount, u128>,
    pub user_cumulative_invest_rate: Map<TokenAccount, u128>,
}

impl View for Finance {
    type V = FinanceView;

    open spec fn view(&self) -> FinanceView {
        FinanceView {
            admin: self.admin,
            oracle: self.oracle,
            balances: self.balances@,
            user_balances: self.user_balances@,
            invested: self.invested@,
            user_invested: self.user_invested@,
            borrowed: self.borrowed@,
            user_borrowed: self.user_borrowed@,
            tokens: self.tokens@,
            token_addresses: self.token_addresses@,
            prices: self.prices@,
            oracle_prices: self.oracle_prices@,
            updated_at: self.updated_at,
            user_updated_at: self.user_updated_at@,
            prices_updated_at: self.prices_updated_at@,
            user_total_balance: self.user_total_balance@,
            user_total_invested: self.user_total_invested@,
            user_total_borrowed: self.user_total_borrowed@,
            user_unpriced_balance: self.user_unpriced_balance@,
            user_unpriced_invested: self.user_unpriced_invested@,
            user_unpriced_borrowed: self.user_unpriced_borrowed@,
            user_total_balance_value: self.user_total_balance_value@,
            user_total_invested_value: self.user_total_invested_value@,
            user_total_borrowed_value: self.user_total_borrowed_value@,
            standard_rates: self.standard_rates@,
            cumulative_borrow_rate: self.cumulative_borrow_rate@,
            cumulative_invest_rate: self.cumulative_invest_rate@,
            user_cumulative_borrow_rate: self.user_cumulative_borrow_rate@,
            user_cumulative_invest_rate: self.user_cumulative_invest_rate@,
        }
    }
}

/// The user's cumulative rate for `token` in a rate table; one when the
/// user has none yet.
pub open spec fn user_rate(m: Map<TokenAccount, u128>, token: AccountId, user: AccountId) -> u128 {
    match lookup(m, TokenAccount { token, user }) {
        Some(r) => r,
        None => rate_one(),
    }
}

impl FinanceView {
    /// `token` is supported and enabled.
    pub open spec fn spec_enabled_token(&self, token: AccountId) -> Result<AccountId, FinanceError> {
        match lookup(self.tokens, token) {
            Some(true) => Ok(token),
            Some(false) => Err(FinanceError::TokenDisabled),
            None => Err(FinanceError::TokenNotSupported),
        }
    }

    /// `token` is supported, enabled or not.
    pub open spec fn spec_supported_token(&self, token: AccountId) -> Result<AccountId, FinanceError> {
        if self.tokens.contains_key(token) {
            Ok(token)
        } else {
            Err(FinanceError::TokenNotSupported)
        }
    }

    /// `caller` is the contract of `token`, acting for `user`.
    pub open spec fn spec_caller(&self, caller: AccountId, user: AccountId, token: AccountId) -> Result<
        AccountId,
        FinanceError,
    > {
        match lookup(self.token_addresses, token) {
            Some(address) => if caller == address {
                Ok(user)
            } else {
                Err(FinanceError::CallerIsNotToken)
            },
            None => Err(FinanceError::TokenNotSupported),
        }
    }

    /// The price of `token` when it is confirmed for `user` at the current
    /// block: the token has a price set at the current block, the user has
    /// been updated at the current block, and none of the user's holdings is
    /// left unpriced.
    pub open spec fn spec_up_to_date_price(&self, token: AccountId, user: AccountId) -> Result<
        u128,
        FinanceError,
    > {
        if !self.prices.contains_key(token) {
            Err(FinanceError::PriceNotFound)
        } else if !self.prices_updated_at.contains_key(token) {
            Err(FinanceError::PriceNeverUpdatedImpossible)
        } else if !self.user_updated_at.contains_key(user) {
            Err(FinanceError::PriceNotUpdatedByUser)
        } else if self.prices_updated_at[token] != self.updated_at {
            Err(FinanceError::PriceOutOfDate)
        } else if self.user_updated_at[user] != self.updated_at {
            Err(FinanceError::PriceNotConfirmedByUser)
        } else if or_zero(lookup(self.user_unpriced_balance, user)) != 0 {
            Err(FinanceError::PriceUpdateForBalanceNotComplete)
        } else if or_zero(lookup(self.user_unpriced_invested, user)) != 0 {
            Err(FinanceError::PriceUpdateForInvestedNotComplete)
        } else if or_zero(lookup(self.user_unpriced_borrowed, user)) != 0 {
            Err(FinanceError::PriceUpdateForBorrowedNotComplete)
        } else {
            Ok(self.prices[token])
        }
    }

    /// The user's total balance value after one balance changes from
    /// `nub.1` to `nub.0` units at `price`.
    pub open spec fn spec_updated_total_balance_value(&self, user: AccountId, price: u128, nub: (
        u128,
        u128,
    )) -> Result<u128, FinanceError> {
        revalued(
            lookup(self.user_total_balance_value, user),
            price,
            nub.0,
            nub.1,
            FinanceError::UserBalanceValueEmptyImpossible,
            FinanceError::UserCurrentBalanceValueOverflowImpossible,
            FinanceError::UserBalanceReductionOverflowImpossible,
            FinanceError::UserBalanceValueOverflow,
            FinanceError::UserTotalBalanceValueTooHigh,
        )
    }

    /// The user's total invested value after one investment changes from
    /// `nui.1` to `nui.0` units at `price`.
    pub open spec fn spec_updated_total_invested_value(&self, user: AccountId, price: u128, nui: (
        u128,
        u128,
    )) -> Result<u128, FinanceError> {
        revalued(
            lookup(self.user_total_invested_value, user),
            price,
            nui.0,
            nui.1,
            FinanceError::UserInvestedValueEmptyImpossible,
            FinanceError::UserCurrentInvestedValueOverflowImpossible,
            FinanceError::UserInvestedReductionOverflowImpossible,
            FinanceError::UserInvestedValueOverflow,
            FinanceError::UserTotalInvestedValueTooHigh,
        )
    }

    /// The user's total borrowed value after one borrow changes from
    /// `nub.1` to `nub.0` units at `price`.
    pub open spec fn spec_updated_total_borrowed_value(&self, user: AccountId, price: u128, nub: (
        u128,
        u128,
    )) -> Result<u128, FinanceError> {
        revalued(
            lookup(self.user_total_borrowed_value, user),
            price,
            nub.0,
            nub.1,
            FinanceError::UserBorrowedValueEmptyImpossible,
            FinanceError::UserCurrentBorrowedValueOverflowImpossible,
            FinanceError::UserBorrowedDeltaValueOverflow,
            FinanceError::UserBorrowedDeltaValueOverflow,
            FinanceError::UserTotalBorrowedValueTooHigh,
        )
    }

    /// The block that the ledger moves to: none when it is already there.
    pub open spec fn spec_new_updated_at(&self, block: u32) -> Option<u32> {
        if self.updated_at == block {
            None
        } else {
            Some(block)
        }
    }

    /// The new price record of `token` (block, price, block of the previous
    /// record): none when the price was already set at the current block and
    /// the ledger stays at it.
    pub open spec fn spec_new_price_updated_at(
        &self,
        token: AccountId,
        block: u32,
        price: u128,
        nua: Option<u32>,
    ) -> Option<(u32, u128, u32)> {
        let pua = lookup(self.prices_updated_at, token);
        let is_new = match pua {
            Some(p) => nua is Some || p != self.updated_at,
            None => true,
        };
        if is_new {
            Some(
                (
                    block,
                    price,
                    match pua {
                        Some(p) => p,
                        None => block,
                    },
                ),
            )
        } else {
            None
        }
    }

    /// The block at which `user` is now updated: none when it already was
    /// at the current block and the ledger stays at it.
    pub open spec fn spec_new_user_updated_at(&self, user: AccountId, block: u32, nua: Option<u32>) -> Option<
        u32,
    > {
        let is_new = match lookup(self.user_updated_at, user) {
            Some(u) => nua is Some || u != self.updated_at,
            None => true,
        };
        if is_new {
            Some(block)
        } else {
            None
        }
    }

    /// The user's balance left unpriced once its balance of `token` is.
    pub open spec fn spec_new_user_unpriced_balance(
        &self,
        token: AccountId,
        user: AccountId,
        nuua: Option<u32>,
    ) -> Result<u128, FinanceError> {
        unpriced(
            lookup(self.user_total_balance, user),
            lookup(self.user_unpriced_balance, user),
            nuua is Some,
            or_zero(lookup(self.user_balances, TokenAccount { token, user })),
            FinanceError::UnpricedBalanceOverflowImpossible,
        )
    }

    /// The user's investment left unpriced once the old investment `nui.1`
    /// is.
    pub open spec fn spec_new_user_unpriced_invested(
        &self,
        user: AccountId,
        nuua: Option<u32>,
        nui: (u128, u128),
    ) -> Result<u128, FinanceError> {
        unpriced(
            lookup(self.user_total_invested, user),
            lookup(self.user_unpriced_invested, user),
            nuua is Some,
            nui.1,
            FinanceError::UnpricedInvestedOverflowImpossible,
        )
    }

    /// The user's borrow left unpriced once the old borrow `nub.1` is.
    pub open spec fn spec_new_user_unpriced_borrowed(
        &self,
        user: AccountId,
        nuua: Option<u32>,
        nub: (u128, u128),
    ) -> Result<u128, FinanceError> {
        unpriced(
            lookup(self.user_total_borrowed, user),
            lookup(self.user_unpriced_borrowed, user),
            nuua is Some,
            nub.1,
            FinanceError::UnpricedBorrowedOverflowImpossible,
        )
    }

    /// The user's total balance value once its balance of `token` is valued
    /// at `price`.
    pub open spec fn spec_new_user_total_balance_value(
        &self,
        token: AccountId,
        user: AccountId,
        price: u128,
        nuua: Option<u32>,
    ) -> Result<u128, FinanceError> {
        valued(
            lookup(self.user_total_balance_value, user),
            nuua is Some,
            or_zero(lookup(self.user_balances, TokenAccount { token, user })),
            price,
            FinanceError::UserBalanceValueTooHigh,
            FinanceError::UserTotalBalanceValueTooHigh,
        )
    }

    /// The user's total invested value once its new investment `nui.0` is
    /// valued at `price`.
    pub open spec fn spec_new_user_total_invested_value(
        &self,
        user: AccountId,
        price: u128,
        nuua: Option<u32>,
        nui: (u128, u128),
    ) -> Result<u128, FinanceError> {
        valued(
            lookup(self.user_total_invested_value, user),
            nuua is Some,
            nui.0,
            price,
            FinanceError::UserInvestedValueTooHigh,
            FinanceError::UserTotalInvestedValueTooHigh,
        )
    }

    /// The user's total borrowed value once its new borrow `nub.0` is
    /// valued at `price`.
    pub open spec fn spec_new_user_total_borrowed_value(
        &self,
        user: AccountId,
        price: u128,
        nuua: Option<u32>,
        nub: (u128, u128),
    ) -> Result<u128, FinanceError> {
        valued(
            lookup(self.user_total_borrowed_value, user),
            nuua is Some,
            nub.0,
            price,
            FinanceError::UserBorrowedValueTooHigh,
            FinanceError::UserTotalBorrowedValueTooHigh,
        )
    }

    /// The interest rate accumulated on `token` since its previous price
    /// record: the standard rate scaled by invested over borrowed, times the
    /// blocks elapsed. None when the token lacks any of these figures, has
    /// nothing borrowed, or gets no new price record.
    pub open spec fn spec_get_rate(&self, token: AccountId, npu: Option<(u32, u128, u32)>) -> Result<
        Option<u128>,
        FinanceError,
    > {
        if !self.invested.contains_key(token) || !self.borrowed.contains_key(token)
            || !self.standard_rates.contains_key(token) || self.borrowed[token] == 0 {
            Ok(None)
        } else {
            let q = self.standard_rates[token] * self.invested[token] / (self.borrowed[token] as int);
            if q >= limb() {
                Err(FinanceError::RateDoesNotFitImpossible)
            } else {
                match npu {
                    None => Ok(None),
                    Some(p) => if p.0 < p.2 {
                        Err(FinanceError::TimeDeltaOverflowImpossible)
                    } else if q * (p.0 - p.2) > u128::MAX {
                        Err(FinanceError::AccumulatedRateOverflow)
                    } else {
                        Ok(Some((q * (p.0 - p.2)) as u128))
                    },
                }
            }
        }
    }

    /// The borrowed amount of `token` with the interest of `rate` (a 64-bit
    /// fraction, rounded up), the interest, and the amount before.
    pub open spec fn spec_new_borrowed_with_interest(&self, token: AccountId, rate: Option<u128>) -> Result<
        (u128, u128, u128),
        FinanceError,
    > {
        let b = or_zero(lookup(self.borrowed, token));
        match rate {
            None => Ok((b, 0, b)),
            Some(r) => {
                let i = ceil_div((r * b) as nat, rate_one() as nat);
                if i >= limb() {
                    Err(FinanceError::InterestOverflow)
                } else if b + i > u128::MAX {
                    Err(FinanceError::BorrowedWithInterestOverflow)
                } else {
                    Ok(((b + i) as u128, i as u128, b))
                }
            },
        }
    }

    /// The invested amount of `token` with `interest` added, and the amount
    /// before.
    pub open spec fn spec_new_invested_with_interest(&self, token: AccountId, interest: u128) -> Result<
        (u128, u128),
        FinanceError,
    > {
        match lookup(self.invested, token) {
            Some(v) => if v + interest > u128::MAX {
                Err(FinanceError::InvestedWithInterestOverflow)
            } else {
                Ok(((v + interest) as u128, v))
            },
            None => Ok((interest, 0)),
        }
    }

    /// The cumulative borrow rate of `token` grown by the ratio of the new
    /// to the old borrowed amount (rounded up); one when the token has none
    /// yet, unchanged when nothing was borrowed.
    pub open spec fn spec_new_cumulative_borrow_rate(
        &self,
        token: AccountId,
        new_borrowed: u128,
        old_borrowed: u128,
    ) -> Result<u128, FinanceError> {
        match lookup(self.cumulative_borrow_rate, token) {
            None => Ok(rate_one()),
            Some(c) => if old_borrowed == 0 {
                Ok(c)
            } else {
                let v = ceil_div((c * new_borrowed) as nat, old_borrowed as nat);
                if v >= limb() {
                    Err(FinanceError::CumulativeBorrowRateOverflow)
                } else {
                    Ok(v as u128)
                }
            },
        }
    }

    /// The cumulative invest rate of `token` grown by the ratio of the new
    /// to the old invested amount (rounded down); one when the token has
    /// none yet, unchanged when nothing was invested.
    pub open spec fn spec_new_cumulative_invest_rate(
        &self,
        token: AccountId,
        new_invested: u128,
        old_invested: u128,
    ) -> Result<u128, FinanceError> {
        match lookup(self.cumulative_invest_rate, token) {
            None => Ok(rate_one()),
            Some(c) => if old_invested == 0 {
                Ok(c)
            } else {
                let v = c * new_invested / (old_invested as int);
                if v >= limb() {
                    Err(FinanceError::CumulativeInvestRateOverflow)
                } else {
                    Ok(v as u128)
                }
            },
        }
    }

    /// The user's borrow of `token` grown by the ratio of the token's new
    /// cumulative borrow rate to the user's own (rounded up), and the borrow
    /// before.
    pub open spec fn spec_new_user_borrowed_after_update(
        &self,
        token: AccountId,
        user: AccountId,
        cbr: u128,
    ) -> Result<(u128, u128), FinanceError> {
        let ub = or_zero(lookup(self.user_borrowed, TokenAccount { token, user }));
        let v = ceil_div(
            (ub * cbr) as nat,
            user_rate(self.user_cumulative_borrow_rate, token, user) as nat,
        );
        if v >= limb() {
            Err(FinanceError::UserBorrowedWithCumulativeOverflow)
        } else {
            Ok((v as u128, ub))
        }
    }

    /// The user's investment in `token` grown by the ratio of the token's
    /// new cumulative invest rate to the user's own (rounded down), and the
    /// investment before.
    pub open spec fn spec_new_user_invested_after_update(
        &self,
        token: AccountId,
        user: AccountId,
        cir: u128,
    ) -> Result<(u128, u128), FinanceError> {
        let ui = or_zero(lookup(self.user_invested, TokenAccount { token, user }));
        let v = ui * cir / (user_rate(self.user_cumulative_invest_rate, token, user) as int);
        if v >= limb() {
            Err(FinanceError::UserInvestedWithCumulativeOverflow)
        } else {
            Ok((v as u128, ui))
        }
    }

    /// The user's total borrow after its borrow of one token moves from
    /// `nub.1` to `nub.0`.
    pub open spec fn spec_new_user_total_borrowed_after_update(&self, user: AccountId, nub: (u128, u128)) -> Result<
        u128,
        FinanceError,
    > {
        retotaled(
            lookup(self.user_total_borrowed, user),
            nub.0,
            nub.1,
            FinanceError::UserTotalBorrowedNegativeDeltaImpossible,
            FinanceError::UserBorrowedValueTooHigh,
        )
    }

    /// The user's total investment after its investment in one token moves
    /// from `nui.1` to `nui.0`.
    pub open spec fn spec_new_user_total_invested_after_update(&self, user: AccountId, nui: (u128, u128)) -> Result<
        u128,
        FinanceError,
    > {
        retotaled(
            lookup(self.user_total_invested, user),
            nui.0,
            nui.1,
            FinanceError::UserInvestedReductionOverflowImpossible,
            FinanceError::UserInvestedValueTooHigh,
        )
    }
}

impl Finance {
    /// Every table is a proper map, and no cumulative rate is zero.
    pub open spec fn wf(&self) -> bool {
        &&& self.balances.wf()
        &&& self.user_balances.wf()
        &&& self.invested.wf()
        &&& self.user_invested.wf()
        &&& self.borrowed.wf()
        &&& self.user_borrowed.wf()
        &&& self.tokens.wf()
        &&& self.token_addresses.wf()
        &&& self.prices.wf()
        &&& self.oracle_prices.wf()
        &&& self.user_updated_at.wf()
        &&& self.prices_updated_at.wf()
        &&& self.user_total_balance.wf()
        &&& self.user_total_invested.wf()
        &&& self.user_total_borrowed.wf()
        &&& self.user_unpriced_balance.wf()
        &&& self.user_unpriced_invested.wf()
        &&& self.user_unpriced_borrowed.wf()
        &&& self.user_total_balance_value.wf()
        &&& self.user_total_invested_value.wf()
        &&& self.user_total_borrowed_value.wf()
        &&& self.standard_rates.wf()
        &&& self.cumulative_borrow_rate.wf()
        &&& self.cumulative_invest_rate.wf()
        &&& self.user_cumulative_borrow_rate.wf()
        &&& self.user_cumulative_invest_rate.wf()
        &&& forall|t: AccountId| #[trigger]
            self.cumulative_borrow_rate@.contains_key(t) ==> self.cumulative_borrow_rate@[t] > 0
        &&& forall|t: AccountId| #[trigger]
            self.cumulative_invest_rate@.contains_key(t) ==> self.cumulative_invest_rate@[t] > 0
        &&& forall|k: TokenAccount| #[trigger]
            self.user_cumulative_borrow_rate@.contains_key(k)
                ==> self.user_cumulative_borrow_rate@[k] > 0
        &&& forall|k: TokenAccount| #[trigger]
            self.user_cumulative_invest_rate@.contains_key(k)
                ==> self.user_cumulative_invest_rate@[k] > 0
    }

    /// An empty ledger created by `caller` at block `block`, whose prices
    /// `oracle` feeds.
    pub fn new(caller: AccountId, block: u32, oracle: AccountId) -> (f: Self)
        ensures
            f.wf(),
            f.admin == caller,
            f.oracle == oracle,
            f.updated_at == block,
            f.balances@ == Map::<AccountId, u128>::empty(),
            f.user_balances@ == Map::<TokenAccount, u128>::empty(),
            f.invested@ == Map::<AccountId, u128>::empty(),
            f.user_invested@ == Map::<TokenAccount, u128>::empty(),
            f.borrowed@ == Map::<AccountId, u128>::empty(),
            f.user_borrowed@ == Map::<TokenAccount, u128>::empty(),
            f.tokens@ == Map::<AccountId, bool>::empty(),
            f.token_addresses@ == Map::<AccountId, AccountId>::empty(),
            f.prices@ == Map::<AccountId, u128>::empty(),
            f.oracle_prices@ == Map::<AccountId, u128>::empty(),
            f.user_updated_at@ == Map::<AccountId, u32>::empty(),
            f.prices_updated_at@ == Map::<AccountId, u32>::empty(),
            f.user_total_balance@ == Map::<AccountId, u128>::empty(),
            f.user_total_invested@ == Map::<AccountId, u128>::empty(),
            f.user_total_borrowed@ == Map::<AccountId, u128>::empty(),
            f.user_unpriced_balance@ == Map::<AccountId, u128>::empty(),
            f.user_unpriced_invested@ == Map::<AccountId, u128>::empty(),
            f.user_unpriced_borrowed@ == Map::<AccountId, u128>::empty(),
            f.user_total_balance_value@ == Map::<AccountId, u128>::empty(),
            f.user_total_invested_value@ == Map::<AccountId, u128>::empty(),
            f.user_total_borrowed_value@ == Map::<AccountId, u128>::empty(),
            f.standard_rates@ == Map::<AccountId, u128>::empty(),
            f.cumulative_borrow_rate@ == Map::<AccountId, u128>::empty(),
            f.cumulative_invest_rate@ == Map::<AccountId, u128>::empty(),
            f.user_cumulative_borrow_rate@ == Map::<TokenAccount, u128>::empty(),
            f.user_cumulative_invest_rate@ == Map::<TokenAccount, u128>::empty(),
    {
        Finance {
            admin: caller,
            oracle,
            balances: KeyMap::new(),
            user_balances: KeyMap::new(),
            invested: KeyMap::new(),
            user_invested: KeyMap::new(),
            borrowed: KeyMap::new(),
            user_borrowed: KeyMap::new(),
            tokens: KeyMap::new(),
            token_addresses: KeyMap::new(),
            prices: KeyMap::new(),
            oracle_prices: KeyMap::new(),
            updated_at: block,
            user_updated_at: KeyMap::new(),
            prices_updated_at: KeyMap::new(),
            user_total_balance: KeyMap::new(),
            user_total_invested: KeyMap::new(),
            user_total_borrowed: KeyMap::new(),
            user_unpriced_balance: KeyMap::new(),
            user_unpriced_invested: KeyMap::new(),
            user_unpriced_borrowed: KeyMap::new(),
            user_total_balance_value: KeyMap::new(),
            user_total_invested_value: KeyMap::new(),
            user_total_borrowed_value: KeyMap::new(),
            standard_rates: KeyMap::new(),
            cumulative_borrow_rate: KeyMap::new(),
            cumulative_invest_rate: KeyMap::new(),
            user_cumulative_borrow_rate: KeyMap::new(),
            user_cumulative_invest_rate: KeyMap::new(),
        }
    }

    fn enabled_token(&self, token: AccountId) -> (r: Result<AccountId, FinanceError>)
        requires
            self.wf(),
        ensures
            r == self@.spec_enabled_token(token),
    {
        match self.tokens.get(&token) {
            Some(v) => if v {
                Ok(token)
            } else {
                Err(FinanceError::TokenDisabled)
            },
            None => Err(FinanceError::TokenNotSupported),
        }
    }

    fn supported_token(&self, token: AccountId) -> (r: Result<AccountId, FinanceError>)
        requires
            self.wf(),
        ensures
            r == self@.spec_supported_token(token),
    {
        if self.tokens.contains(&token) {
            Ok(token)
        } else {
            Err(FinanceError::TokenNotSupported)
        }
    }

    fn caller(&self, caller: AccountId, user: AccountId, token: AccountId) -> (r: Result<
        AccountId,
        FinanceError,
    >)
        requires
            self.wf(),
        ensures
            r == self@.spec_caller(caller, user, token),
    {
        match self.token_addresses.get(&token) {
            Some(address) => if caller == address {
                Ok(user)
            } else {
                Err(FinanceError::CallerIsNotToken)
            },
            None => Err(FinanceError::TokenNotSupported),
        }
    }

    fn oracle_caller(&self, caller: AccountId) -> (r: Result<(), FinanceError>)
        ensures
            caller == self.oracle ==> r is Ok,
            caller != self.oracle ==> r == Err::<(), FinanceError>(FinanceError::CallerIsNotOracle),
    {
        if caller == self.oracle {
            Ok(())
        } else {
            Err(FinanceError::CallerIsNotOracle)
        }
    }

    fn admin_caller(&self, caller: AccountId) -> (r: Result<(), FinanceError>)
        ensures
            caller == self.admin ==> r is Ok,
            caller != self.admin ==> r == Err::<(), FinanceError>(FinanceError::CallerIsNotAdmin),
    {
        if caller == self.admin {
            Ok(())
        } else {
            Err(FinanceError::CallerIsNotAdmin)
        }
    }

    fn new_token_balance_after_deposit(&self, token: AccountId, amount: u128) -> (r: Result<
        u128,
        FinanceError,
    >)
        requires
            self.wf(),
        ensures
            r == grow(lookup(self.balances@, token), amount, FinanceError::DepositOverflow),
    {
        grow_entry(&self.balances, &token, amount, FinanceError::DepositOverflow)
    }

    fn new_user_balance_after_deposit(&self, token: AccountId, user: AccountId, amount: u128) -> (r:
        Result<(u128, u128), FinanceError>)
        requires
            self.wf(),
        ensures
            r == with_old(
                grow(
                    lookup(self.user_balances@, TokenAccount { token, user }),
                    amount,
                    FinanceError::DepositUserOverflow,
                ),
                lookup(self.user_balances@, TokenAccount { token, user }),
            ),
    {
        let k = TokenAccount { token, user };
        let n = grow_entry(&self.user_balances, &k, amount, FinanceError::DepositUserOverflow);
        with_old_entry(&self.user_balances, &k, n)
    }

    fn new_user_total_balance_after_deposit(&self, user: AccountId, amount: u128) -> (r: Result<
        u128,
        FinanceError,
    >)
        requires
            self.wf(),
        ensures
            r == grow(
                lookup(self.user_total_balance@, user),
                amount,
                FinanceError::DepositUserTotalOverflow,
            ),
    {
        grow_entry(&self.user_total_balance, &user, amount, FinanceError::DepositUserTotalOverflow)
    }

    fn new_token_balance_after_withdraw(&self, token: AccountId, amount: u128) -> (r: Result<
        u128,
        FinanceError,
    >)
        requires
            self.wf(),
        ensures
            r == shrink(
                lookup(self.balances@, token),
                amount,
                FinanceError::WithdrawTooMuch,
                FinanceError::NothingToWithdraw,
            ),
    {
        shrink_entry(
            &self.balances,
            &token,
            amount,
            FinanceError::WithdrawTooMuch,
            FinanceError::NothingToWithdraw,
        )
    }

    fn new_user_balance_after_withdraw(&self, token: AccountId, user: AccountId, amount: u128) -> (r:
        Result<(u128, u128), FinanceError>)
        requires
            self.wf(),
        ensures
            r == with_old(
                shrink(
                    lookup(self.user_balances@, TokenAccount { token, user }),
                    amount,
                    FinanceError::WithdrawTooMuchForUser,
                    FinanceError::NothingToWithdrawForUser,
                ),
                lookup(self.user_balances@, TokenAccount { token, user }),
            ),
    {
        let k = TokenAccount { token, user };
        let n = shrink_entry(
            &self.user_balances,
            &k,
            amount,
            FinanceError::WithdrawTooMuchForUser,
            FinanceError::NothingToWithdrawForUser,
        );
        with_old_entry(&self.user_balances, &k, n)
    }

    fn new_user_total_balance_after_withdraw(&self, user: AccountId, amount: u128) -> (r: Result<
        u128,
        FinanceError,
    >)
        requires
            self.wf(),
        ensures
            r == shrink(
                lookup(self.user_total_balance@, user),
                amount,
                FinanceError::WithdrawTooMuchForUserTotal,
                FinanceError::NothingToWithdrawForUserTotal,
            ),
    {
        shrink_entry(
            &self.user_total_balance,
            &user,
            amount,
            FinanceError::WithdrawTooMuchForUserTotal,
            FinanceError::NothingToWithdrawForUserTotal,
        )
    }

    fn new_user_invested_after_invest(&self, token: AccountId, user: AccountId, amount: u128) -> (r:
        Result<(u128, u128), FinanceError>)
        requires
            self.wf(),
        ensures
            r == with_old(
                grow(
                    lookup(self.user_invested@, TokenAccount { token, user }),
                    amount,
                    FinanceError::UserInvestOverflow,
                ),
                lookup(self.user_invested@, TokenAccount { token, user }),
            ),
    {
        let k = TokenAccount { token, user };
        let n = grow_entry(&self.user_invested, &k, amount, FinanceError::UserInvestOverflow);
        with_old_entry(&self.user_invested, &k, n)
    }

    fn new_user_total_invested_after_invest(&self, user: AccountId, amount: u128) -> (r: Result<
        u128,
        FinanceError,
    >)
        requires
            self.wf(),
        ensures
            r == grow(
                lookup(self.user_total_invested@, user),
                amount,
                FinanceError::UserInvestTotalOverflow,
            ),
    {
        grow_entry(&self.user_total_invested, &user, amount, FinanceError::UserInvestTotalOverflow)
    }

    fn new_token_invested_after_invest(&self, token: AccountId, amount: u128) -> (r: Result<
        u128,
        FinanceError,
    >)
        requires
            self.wf(),
        ensures
            r == grow(lookup(self.invested@, token), amount, FinanceError::InvestOverflow),
    {
        grow_entry(&self.invested, &token, amount, FinanceError::InvestOverflow)
    }

    fn new_token_invested_after_redeposit(&self, token: AccountId, amount: u128) -> (r: Result<
        u128,
        FinanceError,
    >)
        requires
            self.wf(),
        ensures
            r == shrink(
                lookup(self.invested@, token),
                amount,
                FinanceError::RedepositTooMuch,
                FinanceError::NothingToRedeposit,
            ),
    {
        shrink_entry(
            &self.invested,
            &token,
            amount,
            FinanceError::RedepositTooMuch,
            FinanceError::NothingToRedeposit,
        )
    }

    fn new_user_invested_after_redeposit(&self, token: AccountId, user: AccountId, amount: u128) -> (r:
        Result<(u128, u128), FinanceError>)
        requires
            self.wf(),
        ensures
            r == with_old(
                shrink(
                    lookup(self.user_invested@, TokenAccount { token, user }),
                    amount,
                    FinanceError::RedepositTooMuchForUser,
                    FinanceError::NothingToRedepositForUser,
                ),
                lookup(self.user_invested@, TokenAccount { token, user }),
            ),
    {
        let k = TokenAccount { token, user };
        let n = shrink_entry(
            &self.user_invested,
            &k,
            amount,
            FinanceError::RedepositTooMuchForUser,
            FinanceError::NothingToRedepositForUser,
        );
        with_old_entry(&self.user_invested, &k, n)
    }

    fn new_user_total_invested_after_redeposit(&self, user: AccountId, amount: u128) -> (r: Result<
        u128,
        FinanceError,
    >)
        requires
            self.wf(),
        ensures
            r == shrink(
                lookup(self.user_total_invested@, user),
                amount,
                FinanceError::RedepositTooMuchForUserTotal,
                FinanceError::NothingToRedepositForUserTotal,
            ),
    {
        shrink_entry(
            &self.user_total_invested,
            &user,
            amount,
            FinanceError::RedepositTooMuchForUserTotal,
            FinanceError::NothingToRedepositForUserTotal,
        )
    }

    fn new_token_borrowed_after_borrow(&self, token: AccountId, amount: u128) -> (r: Result<
        u128,
        FinanceError,
    >)
        requires
            self.wf(),
        ensures
            r == grow(lookup(self.borrowed@, token), amount, FinanceError::BorrowOverflow),
    {
        grow_entry(&self.borrowed, &token, amount, FinanceError::BorrowOverflow)
    }

    fn new_user_borrowed_after_borrow(&self, token: AccountId, user: AccountId, amount: u128) -> (r:
        Result<(u128, u128), FinanceError>)
        requires
            self.wf(),
        ensures
            r == with_old(
                grow(
                    lookup(self.user_borrowed@, TokenAccount { token, user }),
                    amount,
                    FinanceError::UserBorrowOverflow,
                ),
                lookup(self.user_borrowed@, TokenAccount { token, user }),
            ),
    {
        let k = TokenAccount { token, user };
        let n = grow_entry(&self.user_borrowed, &k, amount, FinanceError::UserBorrowOverflow);
        with_old_entry(&self.user_borrowed, &k, n)
    }

    fn new_user_total_borrowed_after_borrow(&self, user: AccountId, amount: u128) -> (r: Result<
        u128,
        FinanceError,
    >)
        requires
            self.wf(),
        ensures
            r == grow(
                lookup(self.user_total_borrowed@, user),
                amount,
                FinanceError::UserBorrowTotalOverflow,
            ),
    {
        grow_entry(&self.user_total_borrowed, &user, amount, FinanceError::UserBorrowTotalOverflow)
    }

    fn new_user_total_borrowed_after_redeem(&self, user: AccountId, amount: u128) -> (r: Result<
        u128,
        FinanceError,
    >)
        requires
            self.wf(),
        ensures
            r == shrink(
                lookup(self.user_total_borrowed@, user),
                amount,
                FinanceError::RedeemTooMuchForUserTotal,
                FinanceError::NothingToRedeemForUserTotal,
            ),
    {
        shrink_entry(
            &self.user_total_borrowed,
            &user,
            amount,
            FinanceError::RedeemTooMuchForUserTotal,
            FinanceError::NothingToRedeemForUserTotal,
        )
    }

    fn new_user_borrowed_after_redeem(&self, token: AccountId, user: AccountId, amount: u128) -> (r:
        Result<(u128, u128), FinanceError>)
        requires
            self.wf(),
        ensures
            r == with_old(
                shrink(
                    lookup(self.user_borrowed@, TokenAccount { token, user }),
                    amount,
                    FinanceError::RedeemTooMuchForUser,
                    FinanceError::NothingToRedeemForUser,
                ),
                lookup(self.user_borrowed@, TokenAccount { token, user }),
            ),
    {
        let k = TokenAccount { token, user };
        let n = shrink_entry(
            &self.user_borrowed,
            &k,
            amount,
            FinanceError::RedeemTooMuchForUser,
            FinanceError::NothingToRedeemForUser,
        );
        with_old_entry(&self.user_borrowed, &k, n)
    }

    fn new_token_borrowed_after_redeem(&self, token: AccountId, amount: u128) -> (r: Result<
        u128,
        FinanceError,
    >)
        requires
            self.wf(),
        ensures
            r == shrink(
                lookup(self.borrowed@, token),
                amount,
                FinanceError::RedeemTooMuch,
                FinanceError::NothingToRedeem,
            ),
    {
        shrink_entry(
            &self.borrowed,
            &token,
            amount,
            FinanceError::RedeemTooMuch,
            FinanceError::NothingToRedeem,
        )
    }

    fn up_to_date_price(&self, token: AccountId, user: AccountId) -> (r: Result<u128, FinanceError>)
        requires
            self.wf(),
        ensures
            r == self@.spec_up_to_date_price(token, user),
    {
        let price = match self.prices.get(&token) {
            Some(p) => p,
            None => {
                return Err(FinanceError::PriceNotFound);
            },
        };
        let price_updated_at = match self.prices_updated_at.get(&token) {
            Some(p) => p,
            None => {
                return Err(FinanceError::PriceNeverUpdatedImpossible);
            },
        };
        let user_updated_at = match self.user_updated_at.get(&user) {
            Some(u) => u,
            None => {
                return Err(FinanceError::PriceNotUpdatedByUser);
            },
        };
        if price_updated_at != self.updated_at {
            return Err(FinanceError::PriceOutOfDate);
        }
        if user_updated_at != self.updated_at {
            return Err(FinanceError::PriceNotConfirmedByUser);
        }
        if let Some(unpriced_balance) = self.user_unpriced_balance.get(&user) {
            if unpriced_balance != 0 {
                return Err(FinanceError::PriceUpdateForBalanceNotComplete);
            }
        }
        if let Some(unpriced_invested) = self.user_unpriced_invested.get(&user) {
            if unpriced_invested != 0 {
                return Err(FinanceError::PriceUpdateForInvestedNotComplete);
            }
        }
        if let Some(unpriced_borrowed) = self.user_unpriced_borrowed.get(&user) {
            if unpriced_borrowed != 0 {
                return Err(FinanceError::PriceUpdateForBorrowedNotComplete);
            }
        }
        Ok(price)
    }

    fn updated_user_total_balance_value(&self, user: AccountId, price: u128, nub: (u128, u128)) -> (r:
        Result<u128, FinanceError>)
        requires
            self.wf(),
        ensures
            r == self@.spec_updated_total_balance_value(user, price, nub),
    {
        revalue(
            self.user_total_balance_value.get(&user),
            price,
            nub.0,
            nub.1,
            FinanceError::UserBalanceValueEmptyImpossible,
            FinanceError::UserCurrentBalanceValueOverflowImpossible,
            FinanceError::UserBalanceReductionOverflowImpossible,
            FinanceError::UserBalanceValueOverflow,
            FinanceError::UserTotalBalanceValueTooHigh,
        )
    }

    fn updated_user_total_invested(&self, user: AccountId, price: u128, nui: (u128, u128)) -> (r:
        Result<u128, FinanceError>)
        requires
            self.wf(),
        ensures
            r == self@.spec_updated_total_invested_value(user, price, nui),
    {
        revalue(
            self.user_total_invested_value.get(&user),
            price,
            nui.0,
            nui.1,
            FinanceError::UserInvestedValueEmptyImpossible,
            FinanceError::UserCurrentInvestedValueOverflowImpossible,
            FinanceError::UserInvestedReductionOverflowImpossible,
            FinanceError::UserInvestedValueOverflow,
            FinanceError::UserTotalInvestedValueTooHigh,
        )
    }

    fn updated_user_total_borrowed(&self, user: AccountId, price: u128, nub: (u128, u128)) -> (r:
        Result<u128, FinanceError>)
        requires
            self.wf(),
        ensures
            r == self@.spec_updated_total_borrowed_value(user, price, nub),
    {
        revalue(
            self.user_total_borrowed_value.get(&user),
            price,
            nub.0,
            nub.1,
            FinanceError::UserBorrowedValueEmptyImpossible,
            FinanceError::UserCurrentBorrowedValueOverflowImpossible,
            FinanceError::UserBorrowedDeltaValueOverflow,
            FinanceError::UserBorrowedDeltaValueOverflow,
            FinanceError::UserTotalBorrowedValueTooHigh,
        )
    }

    fn borrow_health_check(&self, user: AccountId, new_total_borrowed_value: u128) -> (r: Result<
        (),
        FinanceError,
    >)
        requires
            self.wf(),
        ensures
            or_zero(lookup(self.user_total_balance_value@, user)) < new_total_borrowed_value ==> r
                == Err::<(), FinanceError>(FinanceError::BorrowHealthCheckFailed),
            or_zero(lookup(self.user_total_balance_value@, user)) >= new_total_borrowed_value
                ==> r is Ok,
    {
        let balance_value = self.user_total_balance_value.get(&user).unwrap_or(0);
        if balance_value < new_total_borrowed_value {
            Err(FinanceError::BorrowHealthCheckFailed)
        } else {
            Ok(())
        }
    }

    fn withdraw_health_check(&self, user: AccountId, new_total_balance_value: u128) -> (r: Result<
        (),
        FinanceError,
    >)
        requires
            self.wf(),
        ensures
            or_zero(lookup(self.user_total_borrowed_value@, user)) > new_total_balance_value ==> r
                == Err::<(), FinanceError>(FinanceError::WithdrawHealthCheckFailed),
            or_zero(lookup(self.user_total_borrowed_value@, user)) <= new_total_balance_value
                ==> r is Ok,
    {
        let borrowed_value = self.user_total_borrowed_value.get(&user).unwrap_or(0);
        if borrowed_value > new_total_balance_value {
            Err(FinanceError::WithdrawHealthCheckFailed)
        } else {
            Ok(())
        }
    }

    fn redeposit_health_check(&self, token: AccountId, new_invested: u128) -> (r: Result<
        (),
        FinanceError,
    >)
        requires
            self.wf(),
        ensures
            new_invested < or_zero(lookup(self.borrowed@, token)) ==> r == Err::<(), FinanceError>(
                FinanceError::RedepositHealthCheckFailed,
            ),
            new_invested >= or_zero(lookup(self.borrowed@, token)) ==> r is Ok,
    {
        let borrowed = self.borrowed.get(&token).unwrap_or(0);
        if new_invested < borrowed {
            Err(FinanceError::RedepositHealthCheckFailed)
        } else {
            Ok(())
        }
    }
}

/// One in the 64-bit fixed-point numbers of the cumulative rates.
pub open spec fn rate_one() -> u128 {
    0xffff_ffff_ffff_ffffu128
}

/// A user's unpriced amount after a holding of `held` units gets priced:
/// the base is the user's total when the user is fresh at this block, the
/// amount still unpriced otherwise.
pub open spec fn unpriced(
    total: Option<u128>,
    unpriced_now: Option<u128>,
    fresh: bool,
    held: u128,
    err: FinanceError,
) -> Result<u128, FinanceError> {
    let base = if fresh {
        or_zero(total)
    } else {
        or_zero(unpriced_now)
    };
    if base < held {
        Err(err)
    } else {
        Ok((base - held) as u128)
    }
}

/// A user's total value after a holding of `held` units is valued at
/// `price`: it starts from zero when the user is fresh at this block.
pub open spec fn valued(
    total_value: Option<u128>,
    fresh: bool,
    held: u128,
    price: u128,
    held_overflow: FinanceError,
    total_overflow: FinanceError,
) -> Result<u128, FinanceError> {
    let base = if fresh {
        0
    } else {
        or_zero(total_value)
    };
    if held * price > u128::MAX {
        Err(held_overflow)
    } else if base + held * price > u128::MAX {
        Err(total_overflow)
    } else {
        Ok((base + held * price) as u128)
    }
}

/// A user's total after one holding changes from `old` to `new` units: a
/// user without a total starts at `new`.
pub open spec fn retotaled(
    total: Option<u128>,
    new: u128,
    old: u128,
    negative: FinanceError,
    overflow: FinanceError,
) -> Result<u128, FinanceError> {
    match total {
        None => Ok(new),
        Some(t) => if t < old {
            Err(negative)
        } else if t - old + new > u128::MAX {
            Err(overflow)
        } else {
            Ok((t - old + new) as u128)
        },
    }
}

fn unpriced_of(
    total: Option<u128>,
    unpriced_now: Option<u128>,
    fresh: bool,
    held: u128,
    err: FinanceError,
) -> (r: Result<u128, FinanceError>)
    ensures
        r == unpriced(total, unpriced_now, fresh, held, err),
{
    let base = if fresh {
        total.unwrap_or(0)
    } else {
        unpriced_now.unwrap_or(0)
    };
    match base.checked_sub(held) {
        Some(v) => Ok(v),
        None => Err(err),
    }
}

fn valued_of(
    total_value: Option<u128>,
    fresh: bool,
    held: u128,
    price: u128,
    held_overflow: FinanceError,
    total_overflow: FinanceError,
) -> (r: Result<u128, FinanceError>)
    ensures
        r == valued(total_value, fresh, held, price, held_overflow, total_overflow),
{
    let base = if fresh {
        0
    } else {
        total_value.unwrap_or(0)
    };
    let held_value = match held.checked_mul(price) {
        Some(v) => v,
        None => {
            return Err(held_overflow);
        },
    };
    match base.checked_add(held_value) {
        Some(v) => Ok(v),
        None => Err(total_overflow),
    }
}

fn retotaled_of(
    total: Option<u128>,
    new: u128,
    old: u128,
    negative: FinanceError,
    overflow: FinanceError,
) -> (r: Result<u128, FinanceError>)
    ensures
        r == retotaled(total, new, old, negative, overflow),
{
    match total {
        Some(t) => match t.checked_sub(old) {
            Some(base) => match base.checked_add(new) {
                Some(v) => Ok(v),
                None => Err(overflow),
            },
            None => Err(negative),
        },
        None => Ok(new),
    }
}

impl Finance {
    fn new_updated_at(&self, block: u32) -> (r: Option<u32>)
        ensures
            r == self@.spec_new_updated_at(block),
    {
        if self.updated_at == block {
            None
        } else {
            Some(block)
        }
    }

    fn new_price_updated_at(&self, token: AccountId, block: u32, price: u128, nua: Option<u32>) -> (r:
        Option<(u32, u128, u32)>)
        requires
            self.wf(),
        ensures
            r == self@.spec_new_price_updated_at(token, block, price, nua),
    {
        let pua = self.prices_updated_at.get(&token);
        let is_new = match pua {
            Some(p) => if nua.is_none() {
                p != self.updated_at
            } else {
                true
            },
            None => true,
        };
        if is_new {
            let old = match pua {
                Some(p) => p,
                None => block,
            };
            Some((block, price, old))
        } else {
            None
        }
    }

    fn new_user_updated_at(&self, user: AccountId, block: u32, nua: Option<u32>) -> (r: Option<u32>)
        requires
            self.wf(),
        ensures
            r == self@.spec_new_user_updated_at(user, block, nua),
    {
        let is_new = match self.user_updated_at.get(&user) {
            Some(u) => if nua.is_none() {
                u != self.updated_at
            } else {
                true
            },
            None => true,
        };
        if is_new {
            Some(block)
        } else {
            None
        }
    }

    fn new_user_unpriced_balance(&self, token: AccountId, user: AccountId, nuua: Option<u32>) -> (r:
        Result<u128, FinanceError>)
        requires
            self.wf(),
        ensures
            r == self@.spec_new_user_unpriced_balance(token, user, nuua),
    {
        unpriced_of(
            self.user_total_balance.get(&user),
            self.user_unpriced_balance.get(&user),
            nuua.is_some(),
            self.user_balances.get(&TokenAccount { token, user }).unwrap_or(0),
            FinanceError::UnpricedBalanceOverflowImpossible,
        )
    }

    fn new_user_unpriced_invested(&self, user: AccountId, nuua: Option<u32>, nui: (u128, u128)) -> (r:
        Result<u128, FinanceError>)
        requires
            self.wf(),
        ensures
            r == self@.spec_new_user_unpriced_invested(user, nuua, nui),
    {
        unpriced_of(
            self.user_total_invested.get(&user),
            self.user_unpriced_invested.get(&user),
            nuua.is_some(),
            nui.1,
            FinanceError::UnpricedInvestedOverflowImpossible,
        )
    }

    fn new_user_unpriced_borrowed(&self, user: AccountId, nuua: Option<u32>, nub: (u128, u128)) -> (r:
        Result<u128, FinanceError>)
        requires
            self.wf(),
        ensures
            r == self@.spec_new_user_unpriced_borrowed(user, nuua, nub),
    {
        unpriced_of(
            self.user_total_borrowed.get(&user),
            self.user_unpriced_borrowed.get(&user),
            nuua.is_some(),
            nub.1,
            FinanceError::UnpricedBorrowedOverflowImpossible,
        )
    }

    fn new_user_total_balance_value(
        &self,
        token: AccountId,
        user: AccountId,
        price: u128,
        nuua: Option<u32>,
    ) -> (r: Result<u128, FinanceError>)
        requires
            self.wf(),
        ensures
            r == self@.spec_new_user_total_balance_value(token, user, price, nuua),
    {
        valued_of(
            self.user_total_balance_value.get(&user),
            nuua.is_some(),
            self.user_balances.get(&TokenAccount { token, user }).unwrap_or(0),
            price,
            FinanceError::UserBalanceValueTooHigh,
            FinanceError::UserTotalBalanceValueTooHigh,
        )
    }

    fn new_user_total_invested_value(
        &self,
        user: AccountId,
        price: u128,
        nuua: Option<u32>,
        nui: (u128, u128),
    ) -> (r: Result<u128, FinanceError>)
        requires
            self.wf(),
        ensures
            r == self@.spec_new_user_total_invested_value(user, price, nuua, nui),
    {
        valued_of(
            self.user_total_invested_value.get(&user),
            nuua.is_some(),
            nui.0,
            price,
            FinanceError::UserInvestedValueTooHigh,
            FinanceError::UserTotalInvestedValueTooHigh,
        )
    }

    fn new_user_total_borrowed_value(
        &self,
        user: AccountId,
        price: u128,
        nuua: Option<u32>,
        nub: (u128, u128),
    ) -> (r: Result<u128, FinanceError>)
        requires
            self.wf(),
        ensures
            r == self@.spec_new_user_total_borrowed_value(user, price, nuua, nub),
    {
        valued_of(
            self.user_total_borrowed_value.get(&user),
            nuua.is_some(),
            nub.0,
            price,
            FinanceError::UserBorrowedValueTooHigh,
            FinanceError::UserTotalBorrowedValueTooHigh,
        )
    }

    fn get_rate(&self, token: AccountId, npu: Option<(u32, u128, u32)>) -> (r: Result<
        Option<u128>,
        FinanceError,
    >)
        requires
            self.wf(),
        ensures
            r == self@.spec_get_rate(token, npu),
    {
        let invested = match self.invested.get(&token) {
            Some(v) => v,
            None => {
                return Ok(None);
            },
        };
        let borrowed = match self.borrowed.get(&token) {
            Some(v) => v,
            None => {
                return Ok(None);
            },
        };
        let standard_rate = match self.standard_rates.get(&token) {
            Some(v) => v,
            None => {
                return Ok(None);
            },
        };
        if borrowed == 0 {
            return Ok(None);
        }
        let scaled_rate = match mulw(standard_rate, invested).div(borrowed) {
            Some(q) => q,
            None => {
                return Err(FinanceError::RateDoesNotFitImpossible);
            },
        };
        let time_delta = match npu {
            Some(p) => match p.0.checked_sub(p.2) {
                Some(d) => d,
                None => {
                    return Err(FinanceError::TimeDeltaOverflowImpossible);
                },
            },
            None => {
                return Ok(None);
            },
        };
        match scaled_rate.checked_mul(time_delta as u128) {
            Some(v) => Ok(Some(v)),
            None => Err(FinanceError::AccumulatedRateOverflow),
        }
    }

    fn new_borrowed_with_interest(&self, token: AccountId, rate: Option<u128>) -> (r: Result<
        (u128, u128, u128),
        FinanceError,
    >)
        requires
            self.wf(),
        ensures
            r == self@.spec_new_borrowed_with_interest(token, rate),
    {
        let borrowed = self.borrowed.get(&token).unwrap_or(0);
        let rate = match rate {
            Some(r) => r,
            None => {
                return Ok((borrowed, 0, borrowed));
            },
        };
        match mulw(rate, borrowed).ceil_fit(0xffff_ffff_ffff_ffffu128) {
            Some(interest) => match borrowed.checked_add(interest) {
                Some(with_interest) => Ok((with_interest, interest, borrowed)),
                None => Err(FinanceError::BorrowedWithInterestOverflow),
            },
            None => Err(FinanceError::InterestOverflow),
        }
    }

    fn new_invested_with_interest(&self, token: AccountId, interest: u128) -> (r: Result<
        (u128, u128),
        FinanceError,
    >)
        requires
            self.wf(),
        ensures
            r == self@.spec_new_invested_with_interest(token, interest),
    {
        match self.invested.get(&token) {
            Some(v) => match v.checked_add(interest) {
                Some(n) => Ok((n, v)),
                None => Err(FinanceError::InvestedWithInterestOverflow),
            },
            None => Ok((interest, 0)),
        }
    }

    fn new_cumulative_borrow_rate(&self, token: AccountId, new_borrowed: u128, old_borrowed: u128) -> (r:
        Result<u128, FinanceError>)
        requires
            self.wf(),
        ensures
            r == self@.spec_new_cumulative_borrow_rate(token, new_borrowed, old_borrowed),
    {
        let rate = match self.cumulative_borrow_rate.get(&token) {
            Some(c) => if old_borrowed == 0 {
                return Ok(c);
            } else {
                c
            },
            None => {
                return Ok(0xffff_ffff_ffff_ffffu128);
            },
        };
        match mulw(rate, new_borrowed).ceil_fit(old_borrowed) {
            Some(v) => Ok(v),
            None => Err(FinanceError::CumulativeBorrowRateOverflow),
        }
    }

    fn new_cumulative_invest_rate(&self, token: AccountId, new_invested: u128, old_invested: u128) -> (r:
        Result<u128, FinanceError>)
        requires
            self.wf(),
        ensures
            r == self@.spec_new_cumulative_invest_rate(token, new_invested, old_invested),
    {
        let rate = match self.cumulative_invest_rate.get(&token) {
            Some(c) => if old_invested == 0 {
                return Ok(c);
            } else {
                c
            },
            None => {
                return Ok(0xffff_ffff_ffff_ffffu128);
            },
        };
        if old_invested == 0 {
            return Err(FinanceError::OldInvestedZeroImpossible);
        }
        match mulw(rate, new_invested).div(old_invested) {
            Some(v) => Ok(v),
            None => Err(FinanceError::CumulativeInvestRateOverflow),
        }
    }

    fn new_user_borrowed_after_update(&self, token: AccountId, user: AccountId, cbr: u128) -> (r:
        Result<(u128, u128), FinanceError>)
        requires
            self.wf(),
        ensures
            r == self@.spec_new_user_borrowed_after_update(token, user, cbr),
    {
        let k = TokenAccount { token, user };
        let user_borrowed = self.user_borrowed.get(&k).unwrap_or(0);
        let user_rate = match self.user_cumulative_borrow_rate.get(&k) {
            Some(r) => r,
            None => 0xffff_ffff_ffff_ffffu128,
        };
        match mulw(user_borrowed, cbr).ceil_fit(user_rate) {
            Some(v) => Ok((v, user_borrowed)),
            None => Err(FinanceError::UserBorrowedWithCumulativeOverflow),
        }
    }

    fn new_user_invested_after_update(&self, token: AccountId, user: AccountId, cir: u128) -> (r:
        Result<(u128, u128), FinanceError>)
        requires
            self.wf(),
        ensures
            r == self@.spec_new_user_invested_after_update(token, user, cir),
    {
        let k = TokenAccount { token, user };
        let user_invested = self.user_invested.get(&k).unwrap_or(0);
        let user_rate = match self.user_cumulative_invest_rate.get(&k) {
            Some(r) => r,
            None => 0xffff_ffff_ffff_ffffu128,
        };
        match mulw(user_invested, cir).div(user_rate) {
            Some(v) => Ok((v, user_invested)),
            None => Err(FinanceError::UserInvestedWithCumulativeOverflow),
        }
    }

    fn new_user_total_borrowed_after_update(&self, user: AccountId, nub: (u128, u128)) -> (r: Result<
        u128,
        FinanceError,
    >)
        requires
            self.wf(),
        ensures
            r == self@.spec_new_user_total_borrowed_after_update(user, nub),
    {
        retotaled_of(
            self.user_total_borrowed.get(&user),
            nub.0,
            nub.1,
            FinanceError::UserTotalBorrowedNegativeDeltaImpossible,
            FinanceError::UserBorrowedValueTooHigh,
        )
    }

    fn new_user_total_invested_after_update(&self, user: AccountId, nui: (u128, u128)) -> (r: Result<
        u128,
        FinanceError,
    >)
        requires
            self.wf(),
        ensures
            r == self@.spec_new_user_total_invested_after_update(user, nui),
    {
        retotaled_of(
            self.user_total_invested.get(&user),
            nui.0,
            nui.1,
            FinanceError::UserInvestedReductionOverflowImpossible,
            FinanceError::UserInvestedValueTooHigh,
        )
    }
}

impl FinanceView {
    /// The ledger with the user's balance of `token` set as `h` says.
    pub open spec fn with_balance(self, token: AccountId, user: AccountId, h: Holding) -> Self {
        FinanceView {
            user_balances: self.user_balances.insert(TokenAccount { token, user }, h.user_amount),
            balances: self.balances.insert(token, h.token_amount),
            user_total_balance: self.user_total_balance.insert(user, h.user_total),
            user_total_balance_value: self.user_total_balance_value.insert(user, h.user_value),
            ..self
        }
    }

    /// The ledger with the user's investment in `token` set as `h` says.
    pub open spec fn with_invested(self, token: AccountId, user: AccountId, h: Holding) -> Self {
        FinanceView {
            user_invested: self.user_invested.insert(TokenAccount { token, user }, h.user_amount),
            invested: self.invested.insert(token, h.token_amount),
            user_total_invested: self.user_total_invested.insert(user, h.user_total),
            user_total_invested_value: self.user_total_invested_value.insert(user, h.user_value),
            ..self
        }
    }

    /// The ledger with the user's borrow of `token` set as `h` says.
    pub open spec fn with_borrowed(self, token: AccountId, user: AccountId, h: Holding) -> Self {
        FinanceView {
            user_borrowed: self.user_borrowed.insert(TokenAccount { token, user }, h.user_amount),
            borrowed: self.borrowed.insert(token, h.token_amount),
            user_total_borrowed: self.user_total_borrowed.insert(user, h.user_total),
            user_total_borrowed_value: self.user_total_borrowed_value.insert(user, h.user_value),
            ..self
        }
    }

    /// The contract of `token`, `caller`, deposits `amount` for `user`: the
    /// token must be enabled and its price confirmed for the user; the
    /// user's balance, the token's balance, the user's total balance and its
    /// value grow.
    pub open spec fn spec_deposit(self, caller: AccountId, user: AccountId, token: AccountId, amount: u128) -> Result<
        Holding,
        FinanceError,
    > {
        let k = TokenAccount { token, user };
        match self.spec_enabled_token(token) {
            Err(e) => Err(e),
            Ok(_) => match self.spec_caller(caller, user, token) {
                Err(e) => Err(e),
                Ok(_) => match self.spec_up_to_date_price(token, user) {
                    Err(e) => Err(e),
                    Ok(price) => match with_old(
                        grow(lookup(self.user_balances, k), amount, FinanceError::DepositUserOverflow),
                        lookup(self.user_balances, k),
                    ) {
                        Err(e) => Err(e),
                        Ok(nub) => match grow(
                            lookup(self.balances, token),
                            amount,
                            FinanceError::DepositOverflow,
                        ) {
                            Err(e) => Err(e),
                            Ok(b) => match grow(
                                lookup(self.user_total_balance, user),
                                amount,
                                FinanceError::DepositUserTotalOverflow,
                            ) {
                                Err(e) => Err(e),
                                Ok(t) => match self.spec_updated_total_balance_value(user, price, nub) {
                                    Err(e) => Err(e),
                                    Ok(v) => Ok(
                                        Holding {
                                            user_amount: nub.0,
                                            token_amount: b,
                                            user_total: t,
                                            user_value: v,
                                        },
                                    ),
                                },
                            },
                        },
                    },
                },
            },
        }
    }

    /// The contract of `token`, `caller`, withdraws `amount` of `user`'s
    /// balance (enabled or not, with its price confirmed): the balances
    /// shrink, and the user's borrowed value must stay covered.
    pub open spec fn spec_withdraw(self, caller: AccountId, user: AccountId, token: AccountId, amount: u128) -> Result<
        Holding,
        FinanceError,
    > {
        let k = TokenAccount { token, user };
        match self.spec_caller(caller, user, token) {
            Err(e) => Err(e),
            Ok(_) => match self.spec_up_to_date_price(token, user) {
                Err(e) => Err(e),
                Ok(price) => match shrink(
                    lookup(self.user_total_balance, user),
                    amount,
                    FinanceError::WithdrawTooMuchForUserTotal,
                    FinanceError::NothingToWithdrawForUserTotal,
                ) {
                    Err(e) => Err(e),
                    Ok(t) => match shrink(
                        lookup(self.balances, token),
                        amount,
                        FinanceError::WithdrawTooMuch,
                        FinanceError::NothingToWithdraw,
                    ) {
                        Err(e) => Err(e),
                        Ok(b) => match with_old(
                            shrink(
                                lookup(self.user_balances, k),
                                amount,
                                FinanceError::WithdrawTooMuchForUser,
                                FinanceError::NothingToWithdrawForUser,
                            ),
                            lookup(self.user_balances, k),
                        ) {
                            Err(e) => Err(e),
                            Ok(nub) => match self.spec_updated_total_balance_value(user, price, nub) {
                                Err(e) => Err(e),
                                Ok(v) => if or_zero(lookup(self.user_total_borrowed_value, user)) > v {
                                    Err(FinanceError::WithdrawHealthCheckFailed)
                                } else {
                                    Ok(
                                        Holding {
                                            user_amount: nub.0,
                                            token_amount: b,
                                            user_total: t,
                                            user_value: v,
                                        },
                                    )
                                },
                            },
                        },
                    },
                },
            },
        }
    }

    /// The contract of the enabled `token`, `caller`, moves `amount` of
    /// `user`'s balance into its investment: the investments grow, the
    /// balances shrink, and the user's borrowed value must stay covered.
    /// Gives the new investment and the new balance.
    pub open spec fn spec_invest(self, caller: AccountId, user: AccountId, token: AccountId, amount: u128) -> Result<
        (Holding, Holding),
        FinanceError,
    > {
        let k = TokenAccount { token, user };
        match self.spec_enabled_token(token) {
            Err(e) => Err(e),
            Ok(_) => match self.spec_caller(caller, user, token) {
                Err(e) => Err(e),
                Ok(_) => match self.spec_up_to_date_price(token, user) {
                    Err(e) => Err(e),
                    Ok(price) => match grow(
                        lookup(self.user_total_invested, user),
                        amount,
                        FinanceError::UserInvestTotalOverflow,
                    ) {
                        Err(e) => Err(e),
                        Ok(ti) => match with_old(
                            grow(lookup(self.user_invested, k), amount, FinanceError::UserInvestOverflow),
                            lookup(self.user_invested, k),
                        ) {
                            Err(e) => Err(e),
                            Ok(nui) => match grow(
                                lookup(self.invested, token),
                                amount,
                                FinanceError::InvestOverflow,
                            ) {
                                Err(e) => Err(e),
                                Ok(inv) => match self.spec_updated_total_invested_value(
                                    user,
                                    price,
                                    nui,
                                ) {
                                    Err(e) => Err(e),
                                    Ok(iv) => match self.spec_balance_out(user, token, amount, price) {
                                        Err(e) => Err(e),
                                        Ok(bal) => Ok(
                                            (
                                                Holding {
                                                    user_amount: nui.0,
                                                    token_amount: inv,
                                                    user_total: ti,
                                                    user_value: iv,
                                                },
                                                bal,
                                            ),
                                        ),
                                    },
                                },
                            },
                        },
                    },
                },
            },
        }
    }

    /// The balance part of an investment: `amount` leaves the balances of
    /// `token` and `user`, and the user's borrowed value must stay covered.
    pub open spec fn spec_balance_out(self, user: AccountId, token: AccountId, amount: u128, price: u128) -> Result<
        Holding,
        FinanceError,
    > {
        let k = TokenAccount { token, user };
        match shrink(
            lookup(self.balances, token),
            amount,
            FinanceError::WithdrawTooMuch,
            FinanceError::NothingToWithdraw,
        ) {
            Err(e) => Err(e),
            Ok(b) => match with_old(
                shrink(
                    lookup(self.user_balances, k),
                    amount,
                    FinanceError::WithdrawTooMuchForUser,
                    FinanceError::NothingToWithdrawForUser,
                ),
                lookup(self.user_balances, k),
            ) {
                Err(e) => Err(e),
                Ok(nub) => match shrink(
                    lookup(self.user_total_balance, user),
                    amount,
                    FinanceError::WithdrawTooMuchForUserTotal,
                    FinanceError::NothingToWithdrawForUserTotal,
                ) {
                    Err(e) => Err(e),
                    Ok(t) => match self.spec_updated_total_balance_value(user, price, nub) {
                        Err(e) => Err(e),
                        Ok(v) => if or_zero(lookup(self.user_total_borrowed_value, user)) > v {
                            Err(FinanceError::WithdrawHealthCheckFailed)
                        } else {
                            Ok(Holding { user_amount: nub.0, token_amount: b, user_total: t, user_value: v })
                        },
                    },
                },
            },
        }
    }

    /// The contract of `token`, `caller`, moves `amount` of `user`'s
    /// investment back into its balance: the investments shrink, the
    /// balances grow, the user's borrowed value must stay covered and the
    /// token's investment must still cover its borrows. Gives the new
    /// investment and the new balance.
    pub open spec fn spec_redeposit(self, caller: AccountId, user: AccountId, token: AccountId, amount: u128) -> Result<
        (Holding, Holding),
        FinanceError,
    > {
        let k = TokenAccount { token, user };
        match self.spec_caller(caller, user, token) {
            Err(e) => Err(e),
            Ok(_) => match self.spec_up_to_date_price(token, user) {
                Err(e) => Err(e),
                Ok(price) => match shrink(
                    lookup(self.invested, token),
                    amount,
                    FinanceError::RedepositTooMuch,
                    FinanceError::NothingToRedeposit,
                ) {
                    Err(e) => Err(e),
                    Ok(inv) => match with_old(
                        shrink(
                            lookup(self.user_invested, k),
                            amount,
                            FinanceError::RedepositTooMuchForUser,
                            FinanceError::NothingToRedepositForUser,
                        ),
                        lookup(self.user_invested, k),
                    ) {
                        Err(e) => Err(e),
                        Ok(nui) => match shrink(
                            lookup(self.user_total_invested, user),
                            amount,
                            FinanceError::RedepositTooMuchForUserTotal,
                            FinanceError::NothingToRedepositForUserTotal,
                        ) {
                            Err(e) => Err(e),
                            Ok(ti) => match self.spec_updated_total_invested_value(user, price, nui) {
                                Err(e) => Err(e),
                                Ok(iv) => match self.spec_balance_in(user, token, amount, price) {
                                    Err(e) => Err(e),
                                    Ok(bal) => if inv < or_zero(lookup(self.borrowed, token)) {
                                        Err(FinanceError::RedepositHealthCheckFailed)
                                    } else {
                                        Ok(
                                            (
                                                Holding {
                                                    user_amount: nui.0,
                                                    token_amount: inv,
                                                    user_total: ti,
                                                    user_value: iv,
                                                },
                                                bal,
                                            ),
                                        )
                                    },
                                },
                            },
                        },
                    },
                },
            },
        }
    }

    /// The balance part of a redeposit: `amount` joins the balances of
    /// `token` and `user`, and the user's borrowed value must stay covered.
    pub open spec fn spec_balance_in(self, user: AccountId, token: AccountId, amount: u128, price: u128) -> Result<
        Holding,
        FinanceError,
    > {
        let k = TokenAccount { token, user };
        match grow(lookup(self.balances, token), amount, FinanceError::DepositOverflow) {
            Err(e) => Err(e),
            Ok(b) => match with_old(
                grow(lookup(self.user_balances, k), amount, FinanceError::DepositUserOverflow),
                lookup(self.user_balances, k),
            ) {
                Err(e) => Err(e),
                Ok(nub) => match grow(
                    lookup(self.user_total_balance, user),
                    amount,
                    FinanceError::DepositUserTotalOverflow,
                ) {
                    Err(e) => Err(e),
                    Ok(t) => match self.spec_updated_total_balance_value(user, price, nub) {
                        Err(e) => Err(e),
                        Ok(v) => if or_zero(lookup(self.user_total_borrowed_value, user)) > v {
                            Err(FinanceError::WithdrawHealthCheckFailed)
                        } else {
                            Ok(Holding { user_amount: nub.0, token_amount: b, user_total: t, user_value: v })
                        },
                    },
                },
            },
        }
    }

    /// The contract of the enabled `token`, `caller`, lends `amount` to
    /// `user`: the borrows grow, and the user's balance value must cover its
    /// borrowed value.
    pub open spec fn spec_borrow(self, caller: AccountId, user: AccountId, token: AccountId, amount: u128) -> Result<
        Holding,
        FinanceError,
    > {
        let k = TokenAccount { token, user };
        match self.spec_enabled_token(token) {
            Err(e) => Err(e),
            Ok(_) => match self.spec_caller(caller, user, token) {
                Err(e) => Err(e),
                Ok(_) => match self.spec_up_to_date_price(token, user) {
                    Err(e) => Err(e),
                    Ok(price) => match grow(
                        lookup(self.user_total_borrowed, user),
                        amount,
                        FinanceError::UserBorrowTotalOverflow,
                    ) {
                        Err(e) => Err(e),
                        Ok(t) => match grow(
                            lookup(self.borrowed, token),
                            amount,
                            FinanceError::BorrowOverflow,
                        ) {
                            Err(e) => Err(e),
                            Ok(br) => match with_old(
                                grow(lookup(self.user_borrowed, k), amount, FinanceError::UserBorrowOverflow),
                                lookup(self.user_borrowed, k),
                            ) {
                                Err(e) => Err(e),
                                Ok(nub) => match self.spec_updated_total_borrowed_value(user, price, nub) {
                                    Err(e) => Err(e),
                                    Ok(v) => if or_zero(lookup(self.user_total_balance_value, user)) < v {
                                        Err(FinanceError::BorrowHealthCheckFailed)
                                    } else {
                                        Ok(
                                            Holding {
                                                user_amount: nub.0,
                                                token_amount: br,
                                                user_total: t,
                                                user_value: v,
                                            },
                                        )
                                    },
                                },
                            },
                        },
                    },
                },
            },
        }
    }

    /// The contract of `token`, `caller`, takes back `amount` of `user`'s
    /// borrow: the borrows shrink.
    pub open spec fn spec_redeem(self, caller: AccountId, user: AccountId, token: AccountId, amount: u128) -> Result<
        Holding,
        FinanceError,
    > {
        let k = TokenAccount { token, user };
        match self.spec_caller(caller, user, token) {
            Err(e) => Err(e),
            Ok(_) => match self.spec_up_to_date_price(token, user) {
                Err(e) => Err(e),
                Ok(price) => match shrink(
                    lookup(self.borrowed, token),
                    amount,
                    FinanceError::RedeemTooMuch,
                    FinanceError::NothingToRedeem,
                ) {
                    Err(e) => Err(e),
                    Ok(br) => match with_old(
                        shrink(
                            lookup(self.user_borrowed, k),
                            amount,
                            FinanceError::RedeemTooMuchForUser,
                            FinanceError::NothingToRedeemForUser,
                        ),
                        lookup(self.user_borrowed, k),
                    ) {
                        Err(e) => Err(e),
                        Ok(nub) => match shrink(
                            lookup(self.user_total_borrowed, user),
                            amount,
                            FinanceError::RedeemTooMuchForUserTotal,
                            FinanceError::NothingToRedeemForUserTotal,
                        ) {
                            Err(e) => Err(e),
                            Ok(t) => match self.spec_updated_total_borrowed_value(user, price, nub) {
                                Err(e) => Err(e),
                                Ok(v) => Ok(
                                    Holding { user_amount: nub.0, token_amount: br, user_total: t, user_value: v },
                                ),
                            },
                        },
                    },
                },
            },
        }
    }
}

impl Finance {
    fn set_balance(&mut self, token: AccountId, user: AccountId, h: Holding)
        requires
            old(self).wf(),
        ensures
            final(self).wf(),
            final(self)@ == old(self)@.with_balance(token, user, h),
    {
        self.user_balances.insert(TokenAccount { token, user }, h.user_amount);
        self.balances.insert(token, h.token_amount);
        self.user_total_balance.insert(user, h.user_total);
        self.user_total_balance_value.insert(user, h.user_value);
    }

    fn set_invested(&mut self, token: AccountId, user: AccountId, h: Holding)
        requires
            old(self).wf(),
        ensures
            final(self).wf(),
            final(self)@ == old(self)@.with_invested(token, user, h),
    {
        self.user_invested.insert(TokenAccount { token, user }, h.user_amount);
        self.invested.insert(token, h.token_amount);
        self.user_total_invested.insert(user, h.user_total);
        self.user_total_invested_value.insert(user, h.user_value);
    }

    fn set_borrowed(&mut self, token: AccountId, user: AccountId, h: Holding)
        requires
            old(self).wf(),
        ensures
            final(self).wf(),
            final(self)@ == old(self)@.with_borrowed(token, user, h),
    {
        self.user_borrowed.insert(TokenAccount { token, user }, h.user_amount);
        self.borrowed.insert(token, h.token_amount);
        self.user_total_borrowed.insert(user, h.user_total);
        self.user_total_borrowed_value.insert(user, h.user_value);
    }

    /// See [`FinanceView::spec_deposit`].
    fn deposit(&mut self, caller: AccountId, user: AccountId, token: AccountId, amount: u128) -> (r:
        Result<(), FinanceError>)
        requires
            old(self).wf(),
        ensures
            final(self).wf(),
            match old(self)@.spec_deposit(caller, user, token, amount) {
                Ok(h) => r is Ok && final(self)@ == old(self)@.with_balance(token, user, h),
                Err(e) => r == Err::<(), FinanceError>(e) && *final(self) == *old(self),
            },
    {
        let token = match self.enabled_token(token) {
            Ok(t) => t,
            Err(e) => {
                return Err(e);
            },
        };
        let user = match self.caller(caller, user, token) {
            Ok(u) => u,
            Err(e) => {
                return Err(e);
            },
        };
        let price = match self.up_to_date_price(token, user) {
            Ok(p) => p,
            Err(e) => {
                return Err(e);
            },
        };
        let nub = match self.new_user_balance_after_deposit(token, user, amount) {
            Ok(v) => v,
            Err(e) => {
                return Err(e);
            },
        };
        let balance = match self.new_token_balance_after_deposit(token, amount) {
            Ok(v) => v,
            Err(e) => {
                return Err(e);
            },
        };
        let total = match self.new_user_total_balance_after_deposit(user, amount) {
            Ok(v) => v,
            Err(e) => {
                return Err(e);
            },
        };
        let value = match self.updated_user_total_balance_value(user, price, nub) {
            Ok(v) => v,
            Err(e) => {
                return Err(e);
            },
        };
        self.set_balance(
            token,
            user,
            Holding { user_amount: nub.0, token_amount: balance, user_total: total, user_value: value },
        );
        Ok(())
    }

    /// See [`FinanceView::spec_withdraw`].
    fn withdraw(&mut self, caller: AccountId, user: AccountId, token: AccountId, amount: u128) -> (r:
        Result<(), FinanceError>)
        requires
            old(self).wf(),
        ensures
            final(self).wf(),
            match old(self)@.spec_withdraw(caller, user, token, amount) {
                Ok(h) => r is Ok && final(self)@ == old(self)@.with_balance(token, user, h),
                Err(e) => r == Err::<(), FinanceError>(e) && *final(self) == *old(self),
            },
    {
        let user = match self.caller(caller, user, token) {
            Ok(u) => u,
            Err(e) => {
                return Err(e);
            },
        };
        let price = match self.up_to_date_price(token, user) {
            Ok(p) => p,
            Err(e) => {
                return Err(e);
            },
        };
        let total = match self.new_user_total_balance_after_withdraw(user, amount) {
            Ok(v) => v,
            Err(e) => {
                return Err(e);
            },
        };
        let balance = match self.new_token_balance_after_withdraw(token, amount) {
            Ok(v) => v,
            Err(e) => {
                return Err(e);
            },
        };
        let nub = match self.new_user_balance_after_withdraw(token, user, amount) {
            Ok(v) => v,
            Err(e) => {
                return Err(e);
            },
        };
        let value = match self.updated_user_total_balance_value(user, price, nub) {
            Ok(v) => v,
            Err(e) => {
                return Err(e);
            },
        };
        if let Err(e) = self.withdraw_health_check(user, value) {
            return Err(e);
        }
        self.set_balance(
            token,
            user,
            Holding { user_amount: nub.0, token_amount: balance, user_total: total, user_value: value },
        );
        Ok(())
    }

    /// The balance part of [`Self::invest`].
    fn balance_out(&self, user: AccountId, token: AccountId, amount: u128, price: u128) -> (r: Result<
        Holding,
        FinanceError,
    >)
        requires
            self.wf(),
        ensures
            r == self@.spec_balance_out(user, token, amount, price),
    {
        let balance = match self.new_token_balance_after_withdraw(token, amount) {
            Ok(v) => v,
            Err(e) => {
                return Err(e);
            },
        };
        let nub = match self.new_user_balance_after_withdraw(token, user, amount) {
            Ok(v) => v,
            Err(e) => {
                return Err(e);
            },
        };
        let total = match self.new_user_total_balance_after_withdraw(user, amount) {
            Ok(v) => v,
            Err(e) => {
                return Err(e);
            },
        };
        let value = match self.updated_user_total_balance_value(user, price, nub) {
            Ok(v) => v,
            Err(e) => {
                return Err(e);
            },
        };
        if let Err(e) = self.withdraw_health_check(user, value) {
            return Err(e);
        }
        Ok(Holding { user_amount: nub.0, token_amount: balance, user_total: total, user_value: value })
    }

    /// The balance part of [`Self::redeposit`].
    fn balance_in(&self, user: AccountId, token: AccountId, amount: u128, price: u128) -> (r: Result<
        Holding,
        FinanceError,
    >)
        requires
            self.wf(),
        ensures
            r == self@.spec_balance_in(user, token, amount, price),
    {
        let balance = match self.new_token_balance_after_deposit(token, amount) {
            Ok(v) => v,
            Err(e) => {
                return Err(e);
            },
        };
        let nub = match self.new_user_balance_after_deposit(token, user, amount) {
            Ok(v) => v,
            Err(e) => {
                return Err(e);
            },
        };
        let total = match self.new_user_total_balance_after_deposit(user, amount) {
            Ok(v) => v,
            Err(e) => {
                return Err(e);
            },
        };
        let value = match self.updated_user_total_balance_value(user, price, nub) {
            Ok(v) => v,
            Err(e) => {
                return Err(e);
            },
        };
        if let Err(e) = self.withdraw_health_check(user, value) {
            return Err(e);
        }
        Ok(Holding { user_amount: nub.0, token_amount: balance, user_total: total, user_value: value })
    }

    /// See [`FinanceView::spec_invest`].
    fn invest(&mut self, caller: AccountId, user: AccountId, token: AccountId, amount: u128) -> (r:
        Result<(), FinanceError>)
        requires
            old(self).wf(),
        ensures
            final(self).wf(),
            match old(self)@.spec_invest(caller, user, token, amount) {
                Ok(h) => r is Ok && final(self)@ == old(self)@.with_balance(token, user, h.1).with_invested(
                    token,
                    user,
                    h.0,
                ),
                Err(e) => r == Err::<(), FinanceError>(e) && *final(self) == *old(self),
            },
    {
        let token = match self.enabled_token(token) {
            Ok(t) => t,
            Err(e) => {
                return Err(e);
            },
        };
        let user = match self.caller(caller, user, token) {
            Ok(u) => u,
            Err(e) => {
                return Err(e);
            },
        };
        let price = match self.up_to_date_price(token, user) {
            Ok(p) => p,
            Err(e) => {
                return Err(e);
            },
        };
        let total = match self.new_user_total_invested_after_invest(user, amount) {
            Ok(v) => v,
            Err(e) => {
                return Err(e);
            },
        };
        let nui = match self.new_user_invested_after_invest(token, user, amount) {
            Ok(v) => v,
            Err(e) => {
                return Err(e);
            },
        };
        let invested = match self.new_token_invested_after_invest(token, amount) {
            Ok(v) => v,
            Err(e) => {
                return Err(e);
            },
        };
        let value = match self.updated_user_total_invested(user, price, nui) {
            Ok(v) => v,
            Err(e) => {
                return Err(e);
            },
        };
        let bal = match self.balance_out(user, token, amount, price) {
            Ok(h) => h,
            Err(e) => {
                return Err(e);
            },
        };
        self.set_balance(token, user, bal);
        self.set_invested(
            token,
            user,
            Holding { user_amount: nui.0, token_amount: invested, user_total: total, user_value: value },
        );
        Ok(())
    }

    /// See [`FinanceView::spec_redeposit`].
    fn redeposit(&mut self, caller: AccountId, user: AccountId, token: AccountId, amount: u128) -> (r:
        Result<(), FinanceError>)
        requires
            old(self).wf(),
        ensures
            final(self).wf(),
            match old(self)@.spec_redeposit(caller, user, token, amount) {
                Ok(h) => r is Ok && final(self)@ == old(self)@.with_balance(token, user, h.1).with_invested(
                    token,
                    user,
                    h.0,
                ),
                Err(e) => r == Err::<(), FinanceError>(e) && *final(self) == *old(self),
            },
    {
        let user = match self.caller(caller, user, token) {
            Ok(u) => u,
            Err(e) => {
                return Err(e);
            },
        };
        let price = match self.up_to_date_price(token, user) {
            Ok(p) => p,
            Err(e) => {
                return Err(e);
            },
        };
        let invested = match self.new_token_invested_after_redeposit(token, amount) {
            Ok(v) => v,
            Err(e) => {
                return Err(e);
            },
        };
        let nui = match self.new_user_invested_after_redeposit(token, user, amount) {
            Ok(v) => v,
            Err(e) => {
                return Err(e);
            },
        };
        let total = match self.new_user_total_invested_after_redeposit(user, amount) {
            Ok(v) => v,
            Err(e) => {
                return Err(e);
            },
        };
        let value = match self.updated_user_total_invested(user, price, nui) {
            Ok(v) => v,
            Err(e) => {
                return Err(e);
            },
        };
        let bal = match self.balance_in(user, token, amount, price) {
            Ok(h) => h,
            Err(e) => {
                return Err(e);
            },
        };
        if let Err(e) = self.redeposit_health_check(token, invested) {
            return Err(e);
        }
        self.set_balance(token, user, bal);
        self.set_invested(
            token,
            user,
            Holding { user_amount: nui.0, token_amount: invested, user_total: total, user_value: value },
        );
        Ok(())
    }

    /// See [`FinanceView::spec_borrow`].
    fn borrow(&mut self, caller: AccountId, user: AccountId, token: AccountId, amount: u128) -> (r:
        Result<(), FinanceError>)
        requires
            old(self).wf(),
        ensures
            final(self).wf(),
            match old(self)@.spec_borrow(caller, user, token, amount) {
                Ok(h) => r is Ok && final(self)@ == old(self)@.with_borrowed(token, user, h),
                Err(e) => r == Err::<(), FinanceError>(e) && *final(self) == *old(self),
            },
    {
        let token = match self.enabled_token(token) {
            Ok(t) => t,
            Err(e) => {
                return Err(e);
            },
        };
        let user = match self.caller(caller, user, token) {
            Ok(u) => u,
            Err(e) => {
                return Err(e);
            },
        };
        let price = match self.up_to_date_price(token, user) {
            Ok(p) => p,
            Err(e) => {
                return Err(e);
            },
        };
        let total = match self.new_user_total_borrowed_after_borrow(user, amount) {
            Ok(v) => v,
            Err(e) => {
                return Err(e);
            },
        };
        let borrowed = match self.new_token_borrowed_after_borrow(token, amount) {
            Ok(v) => v,
            Err(e) => {
                return Err(e);
            },
        };
        let nub = match self.new_user_borrowed_after_borrow(token, user, amount) {
            Ok(v) => v,
            Err(e) => {
                return Err(e);
            },
        };
        let value = match self.updated_user_total_borrowed(user, price, nub) {
            Ok(v) => v,
            Err(e) => {
                return Err(e);
            },
        };
        if let Err(e) = self.borrow_health_check(user, value) {
            return Err(e);
        }
        self.set_borrowed(
            token,
            user,
            Holding { user_amount: nub.0, token_amount: borrowed, user_total: total, user_value: value },
        );
        Ok(())
    }

    /// See [`FinanceView::spec_redeem`].
    fn redeem(&mut self, caller: AccountId, user: AccountId, token: AccountId, amount: u128) -> (r:
        Result<(), FinanceError>)
        requires
            old(self).wf(),
        ensures
            final(self).wf(),
            match old(self)@.spec_redeem(caller, user, token, amount) {
                Ok(h) => r is Ok && final(self)@ == old(self)@.with_borrowed(token, user, h),
                Err(e) => r == Err::<(), FinanceError>(e) && *final(self) == *old(self),
            },
    {
        let user = match self.caller(caller, user, token) {
            Ok(u) => u,
            Err(e) => {
                return Err(e);
            },
        };
        let price = match self.up_to_date_price(token, user) {
            Ok(p) => p,
            Err(e) => {
                return Err(e);
            },
        };
        let borrowed = match self.new_token_borrowed_after_redeem(token, amount) {
            Ok(v) => v,
            Err(e) => {
                return Err(e);
            },
        };
        let nub = match self.new_user_borrowed_after_redeem(token, user, amount) {
            Ok(v) => v,
            Err(e) => {
                return Err(e);
            },
        };
        let total = match self.new_user_total_borrowed_after_redeem(user, amount) {
            Ok(v) => v,
            Err(e) => {
                return Err(e);
            },
        };
        let value = match self.updated_user_total_borrowed(user, price, nub) {
            Ok(v) => v,
            Err(e) => {
                return Err(e);
            },
        };
        self.set_borrowed(
            token,
            user,
            Holding { user_amount: nub.0, token_amount: borrowed, user_total: total, user_value: value },
        );
        Ok(())
    }
}

impl FinanceView {
    /// What re-pricing `token` at `price` for `user` changes, when `caller`
    /// is the token's contract and `block` the current block (see
    /// [`PriceUpdate`]); the first failing step gives the error.
    pub open spec fn spec_price_update(
        self,
        caller: AccountId,
        block: u32,
        user: AccountId,
        token: AccountId,
        price: u128,
    ) -> Result<PriceUpdate, FinanceError> {
        match self.spec_supported_token(token) {
            Err(e) => Err(e),
            Ok(_) => match self.spec_caller(caller, user, token) {
                Err(e) => Err(e),
                Ok(_) => {
                    let nua = self.spec_new_updated_at(block);
                    let npu = self.spec_new_price_updated_at(token, block, price, nua);
                    match self.spec_get_rate(token, npu) {
                        Err(e) => Err(e),
                        Ok(rate) => match self.spec_new_borrowed_with_interest(token, rate) {
                            Err(e) => Err(e),
                            Ok(bwi) => match self.spec_new_invested_with_interest(token, bwi.1) {
                                Err(e) => Err(e),
                                Ok(iwi) => match self.spec_new_cumulative_borrow_rate(token, bwi.0, bwi.2) {
                                    Err(e) => Err(e),
                                    Ok(cbr) => match self.spec_new_cumulative_invest_rate(
                                        token,
                                        iwi.0,
                                        iwi.1,
                                    ) {
                                        Err(e) => Err(e),
                                        Ok(cir) => self.spec_user_price_update(
                                            block,
                                            user,
                                            token,
                                            price,
                                            nua,
                                            npu,
                                            bwi.0,
                                            iwi.0,
                                            cbr,
                                            cir,
                                        ),
                                    },
                                },
                            },
                        },
                    }
                },
            },
        }
    }

    /// The user's part of [`Self::spec_price_update`], once the token's new
    /// amounts and rates are known.
    pub open spec fn spec_user_price_update(
        self,
        block: u32,
        user: AccountId,
        token: AccountId,
        price: u128,
        nua: Option<u32>,
        npu: Option<(u32, u128, u32)>,
        borrowed: u128,
        invested: u128,
        cbr: u128,
        cir: u128,
    ) -> Result<PriceUpdate, FinanceError> {
        match self.spec_new_user_borrowed_after_update(token, user, cbr) {
            Err(e) => Err(e),
            Ok(nub) => match self.spec_new_user_invested_after_update(token, user, cir) {
                Err(e) => Err(e),
                Ok(nui) => match self.spec_new_user_total_borrowed_after_update(user, nub) {
                    Err(e) => Err(e),
                    Ok(tb) => match self.spec_new_user_total_invested_after_update(user, nui) {
                        Err(e) => Err(e),
                        Ok(ti) => {
                            let nuua = self.spec_new_user_updated_at(user, block, nua);
                            match self.spec_new_user_unpriced_balance(token, user, nuua) {
                                Err(e) => Err(e),
                                Ok(ub) => match self.spec_new_user_unpriced_invested(user, nuua, nui) {
                                    Err(e) => Err(e),
                                    Ok(ui) => match self.spec_new_user_unpriced_borrowed(user, nuua, nub) {
                                        Err(e) => Err(e),
                                        Ok(ubr) => match self.spec_new_user_total_balance_value(
                                            token,
                                            user,
                                            price,
                                            nuua,
                                        ) {
                                            Err(e) => Err(e),
                                            Ok(bv) => match self.spec_new_user_total_invested_value(
                                                user,
                                                price,
                                                nuua,
                                                nui,
                                            ) {
                                                Err(e) => Err(e),
                                                Ok(iv) => match self.spec_new_user_total_borrowed_value(
                                                    user,
                                                    price,
                                                    nuua,
                                                    nub,
                                                ) {
                                                    Err(e) => Err(e),
                                                    Ok(brv) => Ok(
                                                        PriceUpdate {
                                                            new_updated_at: nua,
                                                            new_price_updated_at: npu,
                                                            new_user_updated_at: nuua,
                                                            borrowed,
                                                            invested,
                                                            cumulative_borrow_rate: cbr,
                                                            cumulative_invest_rate: cir,
                                                            user_borrowed: nub.0,
                                                            user_invested: nui.0,
                                                            user_total_borrowed: tb,
                                                            user_total_invested: ti,
                                                            unpriced_balance: ub,
                                                            unpriced_invested: ui,
                                                            unpriced_borrowed: ubr,
                                                            total_balance_value: bv,
                                                            total_invested_value: iv,
                                                            total_borrowed_value: brv,
                                                        },
                                                    ),
                                                },
                                            },
                                        },
                                    },
                                },
                            }
                        },
                    },
                },
            },
        }
    }

    /// The ledger after the re-pricing `u` of `token` for `user`.
    pub open spec fn with_price_update(self, user: AccountId, token: AccountId, u: PriceUpdate) -> Self {
        let k = TokenAccount { token, user };
        FinanceView {
            updated_at: match u.new_updated_at {
                Some(b) => b,
                None => self.updated_at,
            },
            prices_updated_at: match u.new_price_updated_at {
                Some(p) => self.prices_updated_at.insert(token, p.0),
                None => self.prices_updated_at,
            },
            prices: match u.new_price_updated_at {
                Some(p) => self.prices.insert(token, p.1),
                None => self.prices,
            },
            user_updated_at: match u.new_user_updated_at {
                Some(b) => self.user_updated_at.insert(user, b),
                None => self.user_updated_at,
            },
            user_unpriced_balance: self.user_unpriced_balance.insert(user, u.unpriced_balance),
            user_unpriced_invested: self.user_unpriced_invested.insert(user, u.unpriced_invested),
            user_unpriced_borrowed: self.user_unpriced_borrowed.insert(user, u.unpriced_borrowed),
            user_total_balance_value: self.user_total_balance_value.insert(
                user,
                u.total_balance_value,
            ),
            user_total_invested_value: self.user_total_invested_value.insert(
                user,
                u.total_invested_value,
            ),
            user_total_borrowed_value: self.user_total_borrowed_value.insert(
                user,
                u.total_borrowed_value,
            ),
            borrowed: self.borrowed.insert(token, u.borrowed),
            invested: self.invested.insert(token, u.invested),
            user_cumulative_borrow_rate: self.user_cumulative_borrow_rate.insert(
                k,
                u.cumulative_borrow_rate,
            ),
            user_cumulative_invest_rate: self.user_cumulative_invest_rate.insert(
                k,
                u.cumulative_invest_rate,
            ),
            cumulative_borrow_rate: self.cumulative_borrow_rate.insert(
                token,
                u.cumulative_borrow_rate,
            ),
            cumulative_invest_rate: self.cumulative_invest_rate.insert(
                token,
                u.cumulative_invest_rate,
            ),
            user_borrowed: self.user_borrowed.insert(k, u.user_borrowed),
            user_invested: self.user_invested.insert(k, u.user_invested),
            user_total_borrowed: self.user_total_borrowed.insert(user, u.user_total_borrowed),
            user_total_invested: self.user_total_invested.insert(user, u.user_total_invested),
            ..self
        }
    }

    /// The ledger after re-pricing `token` at `price` for `user`.
    pub open spec fn repriced(
        self,
        caller: AccountId,
        block: u32,
        user: AccountId,
        token: AccountId,
        price: u128,
    ) -> Result<Self, FinanceError> {
        match self.spec_price_update(caller, block, user, token, price) {
            Ok(u) => Ok(self.with_price_update(user, token, u)),
            Err(e) => Err(e),
        }
    }

    /// The ledger after re-pricing, in order, each of `tokens` that has an
    /// oracle price, for `user`, and the outcome: at the first failure the
    /// re-pricing stops, keeping the tokens re-priced before it, and gives
    /// the error.
    pub open spec fn repriced_all(
        self,
        caller: AccountId,
        block: u32,
        user: AccountId,
        tokens: Seq<AccountId>,
    ) -> (Self, Result<(), FinanceError>)
        decreases tokens.len(),
    {
        if tokens.len() == 0 {
            (self, Ok(()))
        } else {
            let (v, r) = self.repriced_all(caller, block, user, tokens.drop_last());
            match r {
                Err(e) => (v, Err(e)),
                Ok(_) => {
                    let t = tokens.last();
                    if v.oracle_prices.contains_key(t) {
                        match v.repriced(caller, block, user, t, v.oracle_prices[t]) {
                            Ok(w) => (w, Ok(())),
                            Err(e) => (v, Err(e)),
                        }
                    } else {
                        (v, Ok(()))
                    }
                },
            }
        }
    }

    /// The ledger after `user`'s action number `action` (0 deposit,
    /// 1 withdraw, 2 invest, 3 redeposit, 4 borrow, 5 redeem) of `amount` of
    /// `token`, reported by `caller`.
    pub open spec fn acted(
        self,
        action: u8,
        caller: AccountId,
        user: AccountId,
        token: AccountId,
        amount: u128,
    ) -> Result<Self, FinanceError> {
        if action == 0 {
            match self.spec_deposit(caller, user, token, amount) {
                Ok(h) => Ok(self.with_balance(token, user, h)),
                Err(e) => Err(e),
            }
        } else if action == 1 {
            match self.spec_withdraw(caller, user, token, amount) {
                Ok(h) => Ok(self.with_balance(token, user, h)),
                Err(e) => Err(e),
            }
        } else if action == 2 {
            match self.spec_invest(caller, user, token, amount) {
                Ok(h) => Ok(self.with_balance(token, user, h.1).with_invested(token, user, h.0)),
                Err(e) => Err(e),
            }
        } else if action == 3 {
            match self.spec_redeposit(caller, user, token, amount) {
                Ok(h) => Ok(self.with_balance(token, user, h.1).with_invested(token, user, h.0)),
                Err(e) => Err(e),
            }
        } else if action == 4 {
            match self.spec_borrow(caller, user, token, amount) {
                Ok(h) => Ok(self.with_borrowed(token, user, h)),
                Err(e) => Err(e),
            }
        } else if action == 5 {
            match self.spec_redeem(caller, user, token, amount) {
                Ok(h) => Ok(self.with_borrowed(token, user, h)),
                Err(e) => Err(e),
            }
        } else {
            Err(FinanceError::InvalidAction)
        }
    }

    /// The ledger after an update, and its outcome: the re-pricing of
    /// `tokens`, then the action. A failed action leaves the re-pricing in
    /// place.
    pub open spec fn updated(
        self,
        caller: AccountId,
        block: u32,
        action: u8,
        user: AccountId,
        token: AccountId,
        amount: u128,
        tokens: Seq<AccountId>,
    ) -> (Self, Result<(), FinanceError>) {
        let (v, r) = self.repriced_all(caller, block, user, tokens);
        match r {
            Err(e) => (v, Err(e)),
            Ok(_) => match v.acted(action, caller, user, token, amount) {
                Ok(w) => (w, Ok(())),
                Err(e) => (v, Err(e)),
            },
        }
    }
}

/// A cumulative rate grown by a ratio of at least one stays positive.
proof fn lemma_rate_grows(c: u128, new: u128, old: u128)
    requires
        c > 0,
        old > 0,
        new >= old,
    ensures
        c * new / (old as int) >= 1,
        ceil_div((c * new) as nat, old as nat) >= 1,
{
    assert(c * new >= old) by (nonlinear_arith)
        requires
            c >= 1,
            new >= old,
    ;
    assert(c * new / (old as int) >= 1) by (nonlinear_arith)
        requires
            c * new >= old,
            old > 0,
    ;
}

impl Finance {
    /// See [`FinanceView::spec_user_price_update`].
    fn user_price_update(
        &self,
        block: u32,
        user: AccountId,
        token: AccountId,
        price: u128,
        nua: Option<u32>,
        npu: Option<(u32, u128, u32)>,
        borrowed: u128,
        invested: u128,
        cbr: u128,
        cir: u128,
    ) -> (r: Result<PriceUpdate, FinanceError>)
        requires
            self.wf(),
        ensures
            r == self@.spec_user_price_update(
                block,
                user,
                token,
                price,
                nua,
                npu,
                borrowed,
                invested,
                cbr,
                cir,
            ),
    {
        let nub = match self.new_user_borrowed_after_update(token, user, cbr) {
            Ok(v) => v,
            Err(e) => {
                return Err(e);
            },
        };
        let nui = match self.new_user_invested_after_update(token, user, cir) {
            Ok(v) => v,
            Err(e) => {
                return Err(e);
            },
        };
        let tb = match self.new_user_total_borrowed_after_update(user, nub) {
            Ok(v) => v,
            Err(e) => {
                return Err(e);
            },
        };
        let ti = match self.new_user_total_invested_after_update(user, nui) {
            Ok(v) => v,
            Err(e) => {
                return Err(e);
            },
        };
        let nuua = self.new_user_updated_at(user, block, nua);
        let ub = match self.new_user_unpriced_balance(token, user, nuua) {
            Ok(v) => v,
            Err(e) => {
                return Err(e);
            },
        };
        let ui = match self.new_user_unpriced_invested(user, nuua, nui) {
            Ok(v) => v,
            Err(e) => {
                return Err(e);
            },
        };
        let ubr = match self.new_user_unpriced_borrowed(user, nuua, nub) {
            Ok(v) => v,
            Err(e) => {
                return Err(e);
            },
        };
        let bv = match self.new_user_total_balance_value(token, user, price, nuua) {
            Ok(v) => v,
            Err(e) => {
                return Err(e);
            },
        };
        let iv = match self.new_user_total_invested_value(user, price, nuua, nui) {
            Ok(v) => v,
            Err(e) => {
                return Err(e);
            },
        };
        let brv = match self.new_user_total_borrowed_value(user, price, nuua, nub) {
            Ok(v) => v,
            Err(e) => {
                return Err(e);
            },
        };
        Ok(
            PriceUpdate {
                new_updated_at: nua,
                new_price_updated_at: npu,
                new_user_updated_at: nuua,
                borrowed,
                invested,
                cumulative_borrow_rate: cbr,
                cumulative_invest_rate: cir,
                user_borrowed: nub.0,
                user_invested: nui.0,
                user_total_borrowed: tb,
                user_total_invested: ti,
                unpriced_balance: ub,
                unpriced_invested: ui,
                unpriced_borrowed: ubr,
                total_balance_value: bv,
                total_invested_value: iv,
                total_borrowed_value: brv,
            },
        )
    }

    /// See [`FinanceView::spec_price_update`]; the new cumulative rates are
    /// positive.
    fn price_update(&self, caller: AccountId, block: u32, user: AccountId, token: AccountId, price: u128) -> (r:
        Result<PriceUpdate, FinanceError>)
        requires
            self.wf(),
        ensures
            r == self@.spec_price_update(caller, block, user, token, price),
            r matches Ok(u) ==> u.cumulative_borrow_rate > 0 && u.cumulative_invest_rate > 0,
    {
        let token = match self.supported_token(token) {
            Ok(t) => t,
            Err(e) => {
                return Err(e);
            },
        };
        let user = match self.caller(caller, user, token) {
            Ok(u) => u,
            Err(e) => {
                return Err(e);
            },
        };
        let nua = self.new_updated_at(block);
        let npu = self.new_price_updated_at(token, block, price, nua);
        let rate = match self.get_rate(token, npu) {
            Ok(v) => v,
            Err(e) => {
                return Err(e);
            },
        };
        let (borrowed, interest, old_borrowed) = match self.new_borrowed_with_interest(token, rate) {
            Ok(v) => v,
            Err(e) => {
                return Err(e);
            },
        };
        let (invested, old_invested) = match self.new_invested_with_interest(token, interest) {
            Ok(v) => v,
            Err(e) => {
                return Err(e);
            },
        };
        let cbr = match self.new_cumulative_borrow_rate(token, borrowed, old_borrowed) {
            Ok(v) => v,
            Err(e) => {
                return Err(e);
            },
        };
        let cir = match self.new_cumulative_invest_rate(token, invested, old_invested) {
            Ok(v) => v,
            Err(e) => {
                return Err(e);
            },
        };
        proof {
            if let Some(c) = lookup(self@.cumulative_borrow_rate, token) {
                if old_borrowed != 0 {
                    lemma_rate_grows(c, borrowed, old_borrowed);
                }
            }
            if let Some(c) = lookup(self@.cumulative_invest_rate, token) {
                if old_invested != 0 {
                    lemma_rate_grows(c, invested, old_invested);
                }
            }
        }
        self.user_price_update(block, user, token, price, nua, npu, borrowed, invested, cbr, cir)
    }

    fn set_price_update(&mut self, user: AccountId, token: AccountId, u: PriceUpdate)
        requires
            old(self).wf(),
            u.cumulative_borrow_rate > 0,
            u.cumulative_invest_rate > 0,
        ensures
            final(self).wf(),
            final(self)@ == old(self)@.with_price_update(user, token, u),
    {
        let k = TokenAccount { token, user };
        if let Some(b) = u.new_updated_at {
            self.updated_at = b;
        }
        if let Some(p) = u.new_price_updated_at {
            self.prices_updated_at.insert(token, p.0);
            self.prices.insert(token, p.1);
        }
        if let Some(b) = u.new_user_updated_at {
            self.user_updated_at.insert(user, b);
        }
        self.user_unpriced_balance.insert(user, u.unpriced_balance);
        self.user_unpriced_invested.insert(user, u.unpriced_invested);
        self.user_unpriced_borrowed.insert(user, u.unpriced_borrowed);
        self.user_total_balance_value.insert(user, u.total_balance_value);
        self.user_total_invested_value.insert(user, u.total_invested_value);
        self.user_total_borrowed_value.insert(user, u.total_borrowed_value);
        self.borrowed.insert(token, u.borrowed);
        self.invested.insert(token, u.invested);
        self.user_cumulative_borrow_rate.insert(k, u.cumulative_borrow_rate);
        self.user_cumulative_invest_rate.insert(k, u.cumulative_invest_rate);
        self.cumulative_borrow_rate.insert(token, u.cumulative_borrow_rate);
        self.cumulative_invest_rate.insert(token, u.cumulative_invest_rate);
        self.user_borrowed.insert(k, u.user_borrowed);
        self.user_invested.insert(k, u.user_invested);
        self.user_total_borrowed.insert(user, u.user_total_borrowed);
        self.user_total_invested.insert(user, u.user_total_invested);
    }

    /// `caller`, the contract of `token`, re-prices `token` at `price` for
    /// `user` at block `block`.
    fn update_price(&mut self, caller: AccountId, block: u32, user: AccountId, token: AccountId, price: u128) -> (r:
        Result<(), FinanceError>)
        requires
            old(self).wf(),
        ensures
            final(self).wf(),
            match old(self)@.repriced(caller, block, user, token, price) {
                Ok(v) => r is Ok && final(self)@ == v,
                Err(e) => r == Err::<(), FinanceError>(e) && *final(self) == *old(self),
            },
    {
        match self.price_update(caller, block, user, token, price) {
            Ok(u) => {
                self.set_price_update(user, token, u);
                Ok(())
            },
            Err(e) => Err(e),
        }
    }
}

impl Finance {
    /// `user`'s action number `action` (see [`FinanceView::acted`]).
    fn act(&mut self, action: u8, caller: AccountId, user: AccountId, token: AccountId, amount: u128) -> (r:
        Result<(), FinanceError>)
        requires
            old(self).wf(),
        ensures
            final(self).wf(),
            match old(self)@.acted(action, caller, user, token, amount) {
                Ok(v) => r is Ok && final(self)@ == v,
                Err(e) => r == Err::<(), FinanceError>(e) && *final(self) == *old(self),
            },
    {
        match action {
            0 => self.deposit(caller, user, token, amount),
            1 => self.withdraw(caller, user, token, amount),
            2 => self.invest(caller, user, token, amount),
            3 => self.redeposit(caller, user, token, amount),
            4 => self.borrow(caller, user, token, amount),
            5 => self.redeem(caller, user, token, amount),
            _ => Err(FinanceError::InvalidAction),
        }
    }

    /// `caller`, the contract of `token`, reports at block `block` the
    /// action number `action` of `user` on `amount` of `token` (see
    /// [`FinanceView::acted`]), after re-pricing for the user each of
    /// `tokens` that has an oracle price (see [`FinanceView::updated`]).
    /// A failing step gives its error and keeps what the steps before it
    /// did: the tokens already re-priced stay re-priced.
    pub fn update(
        &mut self,
        caller: AccountId,
        block: u32,
        action: u8,
        user: AccountId,
        token: AccountId,
        amount: u128,
        tokens: Vec<AccountId>,
    ) -> (r: Result<(), FinanceError>)
        requires
            old(self).wf(),
        ensures
            final(self).wf(),
            ({
                let (v, res) = old(self)@.updated(caller, block, action, user, token, amount, tokens@);
                &&& r == res
                &&& final(self)@ == v
            }),
    {
        let mut i: usize = 0;
        while i < tokens.len()
            invariant
                self.wf(),
                i <= tokens@.len(),
                old(self)@.repriced_all(caller, block, user, tokens@.take(i as int)) == (
                    self@,
                    Ok::<(), FinanceError>(()),
                ),
            decreases tokens@.len() - i,
        {
            let t = tokens[i];
            proof {
                assert(tokens@.take(i + 1).drop_last() =~= tokens@.take(i as int));
            }
            if let Some(price) = self.oracle_prices.get(&t) {
                if let Err(e) = self.update_price(caller, block, user, t, price) {
                    proof {
                        lemma_repriced_all_fails(old(self)@, caller, block, user, tokens@, i as int + 1);
                    }
                    return Err(e);
                }
            }
            i = i + 1;
        }
        proof {
            assert(tokens@.take(i as int) =~= tokens@);
        }
        let ghost mid = self@;
        let r = self.act(action, caller, user, token, amount);
        proof {
            if r is Ok {
                let x = r->Ok_0;
                assert(x == ());
            }
        }
        r
    }

    /// The admin `caller` disables `token`: no new deposits, investments or
    /// borrows.
    pub fn disable(&mut self, caller: AccountId, token: AccountId) -> (r: Result<(), FinanceError>)
        requires
            old(self).wf(),
        ensures
            final(self).wf(),
            caller != old(self).admin ==> r == Err::<(), FinanceError>(FinanceError::CallerIsNotAdmin)
                && *final(self) == *old(self),
            caller == old(self).admin ==> r is Ok && final(self)@ == (FinanceView {
                tokens: old(self)@.tokens.insert(token, false),
                ..old(self)@
            }),
    {
        if let Err(e) = self.admin_caller(caller) {
            return Err(e);
        }
        self.tokens.insert(token, false);
        Ok(())
    }

    /// The admin `caller` enables `token`, whose contract is `address`.
    pub fn enable(&mut self, caller: AccountId, token: AccountId, address: AccountId) -> (r: Result<
        (),
        FinanceError,
    >)
        requires
            old(self).wf(),
        ensures
            final(self).wf(),
            caller != old(self).admin ==> r == Err::<(), FinanceError>(FinanceError::CallerIsNotAdmin)
                && *final(self) == *old(self),
            caller == old(self).admin ==> r is Ok && final(self)@ == (FinanceView {
                tokens: old(self)@.tokens.insert(token, true),
                token_addresses: old(self)@.token_addresses.insert(token, address),
                ..old(self)@
            }),
    {
        if let Err(e) = self.admin_caller(caller) {
            return Err(e);
        }
        self.tokens.insert(token, true);
        self.token_addresses.insert(token, address);
        Ok(())
    }

    /// The oracle `caller` sets the price of the supported `token`; users
    /// take it up at their next update.
    pub fn set_price(&mut self, caller: AccountId, token: AccountId, price: u128) -> (r: Result<
        (),
        FinanceError,
    >)
        requires
            old(self).wf(),
        ensures
            final(self).wf(),
            caller != old(self).oracle ==> r == Err::<(), FinanceError>(FinanceError::CallerIsNotOracle)
                && *final(self) == *old(self),
            caller == old(self).oracle && !old(self)@.tokens.contains_key(token) ==> r == Err::<
                (),
                FinanceError,
            >(FinanceError::TokenNotSupported) && *final(self) == *old(self),
            caller == old(self).oracle && old(self)@.tokens.contains_key(token) ==> r is Ok
                && final(self)@ == (FinanceView {
                oracle_prices: old(self)@.oracle_prices.insert(token, price),
                ..old(self)@
            }),
    {
        if let Err(e) = self.oracle_caller(caller) {
            return Err(e);
        }
        let token = match self.supported_token(token) {
            Ok(t) => t,
            Err(e) => {
                return Err(e);
            },
        };
        self.oracle_prices.insert(token, price);
        Ok(())
    }
}

/// Once a prefix of the tokens fails to re-price, the whole list stops
/// there with the same ledger and error.
proof fn lemma_repriced_all_fails(
    v: FinanceView,
    caller: AccountId,
    block: u32,
    user: AccountId,
    tokens: Seq<AccountId>,
    n: int,
)
    requires
        0 < n <= tokens.len(),
        v.repriced_all(caller, block, user, tokens.take(n)).1 is Err,
    ensures
        v.repriced_all(caller, block, user, tokens) == v.repriced_all(
            caller,
            block,
            user,
            tokens.take(n),
        ),
    decreases tokens.len() - n,
{
    if n < tokens.len() {
        assert(tokens.take(n + 1).drop_last() =~= tokens.take(n));
        lemma_repriced_all_fails(v, caller, block, user, tokens, n + 1);
    } else {
        assert(tokens.take(n) =~= tokens);
    }
}

} // verus!
