//! Plain data shared by the contracts: pool parameters, the answers that
//! pools of a ring give each other, events, and the context of a call.
use vstd::prelude::*;
use crate::account::AccountId;

verus! {

/// Risk and fee parameters of a lending pool. Rates, margins, haircuts,
/// fees and the liquidation reward are 128-bit fractions (`x / 2^128`).
#[derive(Debug, Clone, Copy)]
pub struct AssetParams {
    pub standard_rate: u128,
    pub standard_min_rate: u128,
    pub emergency_rate: u128,
    pub emergency_max_rate: u128,
    pub initial_margin: u128,
    pub maintenance_margin: u128,
    pub initial_haircut: u128,
    pub maintenance_haircut: u128,
    pub mint_fee: u128,
    pub borrow_fee: u128,
    pub take_cash_fee: u128,
    pub liquidation_reward: u128,
}

impl AssetParams {
    /// All parameters zero.
    pub open spec fn zero_spec() -> AssetParams {
        AssetParams {
            standard_rate: 0,
            standard_min_rate: 0,
            emergency_rate: 0,
            emergency_max_rate: 0,
            initial_margin: 0,
            maintenance_margin: 0,
            initial_haircut: 0,
            maintenance_haircut: 0,
            mint_fee: 0,
            borrow_fee: 0,
            take_cash_fee: 0,
            liquidation_reward: 0,
        }
    }
}

impl Default for AssetParams {
    fn default() -> (r: AssetParams)
        ensures
            r == AssetParams::zero_spec(),
    {
        AssetParams {
            standard_rate: 0,
            standard_min_rate: 0,
            emergency_rate: 0,
            emergency_max_rate: 0,
            initial_margin: 0,
            maintenance_margin: 0,
            initial_haircut: 0,
            maintenance_haircut: 0,
            mint_fee: 0,
            borrow_fee: 0,
            take_cash_fee: 0,
            liquidation_reward: 0,
        }
    }
}

/// What a pool of the ring reports about a user: the next member of the
/// ring, and the initial values of the user's collateral and debt there.
#[derive(Debug, Clone, Copy)]
pub struct UpdateResult {
    pub next: AccountId,
    pub initial_collateral_value: u128,
    pub initial_debt_value: u128,
}

impl UpdateResult {
    /// A report of collateral worth `icv`.
    pub open spec fn from_collateral_spec(next: AccountId, icv: u128) -> UpdateResult {
        UpdateResult { next, initial_collateral_value: icv, initial_debt_value: 0 }
    }

    /// A report of debt worth `idv`.
    pub open spec fn from_debt_spec(next: AccountId, idv: u128) -> UpdateResult {
        UpdateResult { next, initial_collateral_value: 0, initial_debt_value: idv }
    }

    /// A report of collateral worth `icv`.
    pub fn from_collateral(next: AccountId, icv: u128) -> (r: Self)
        ensures
            r == (UpdateResult { next, initial_collateral_value: icv, initial_debt_value: 0 }),
    {
        Self { next, initial_collateral_value: icv, initial_debt_value: 0 }
    }

    /// A report of debt worth `idv`.
    pub fn from_debt(next: AccountId, idv: u128) -> (r: Self)
        ensures
            r == (UpdateResult { next, initial_collateral_value: 0, initial_debt_value: idv }),
    {
        Self { next, initial_collateral_value: 0, initial_debt_value: idv }
    }

    /// A report of neither collateral nor debt.
    pub fn new(next: AccountId) -> (r: Self)
        ensures
            r == (UpdateResult { next, initial_collateral_value: 0, initial_debt_value: 0 }),
    {
        Self { next, initial_collateral_value: 0, initial_debt_value: 0 }
    }
}

/// What a pool of the ring reports during a liquidation: the next member,
/// the value it repaid from the liquidator's cash, and the initial and
/// maintenance values of the user's collateral and debt there.
#[derive(Debug, Clone, Copy)]
pub struct RepayOrUpdateResult {
    pub next: AccountId,
    pub repaid: u128,
    pub initial_collateral_value: u128,
    pub initial_debt_value: u128,
    pub maintenance_collateral_value: u128,
    pub maintenance_debt_value: u128,
}

impl RepayOrUpdateResult {
    /// A report of nothing.
    pub fn new(next: AccountId) -> (r: Self)
        ensures
            r == (RepayOrUpdateResult {
                next,
                repaid: 0,
                initial_collateral_value: 0,
                initial_debt_value: 0,
                maintenance_collateral_value: 0,
                maintenance_debt_value: 0,
            }),
    {
        RepayOrUpdateResult {
            next,
            repaid: 0,
            initial_collateral_value: 0,
            initial_debt_value: 0,
            maintenance_collateral_value: 0,
            maintenance_debt_value: 0,
        }
    }
}

/// Event: `value` tokens moved from `from` to `to` (`None` for minting and burning).
#[derive(Debug, Clone, Copy)]
pub struct Transfer {
    pub from: Option<AccountId>,
    pub to: Option<AccountId>,
    pub value: u128,
}

/// Event: `owner` allows `spender` to move `amount` of its tokens.
#[derive(Debug, Clone, Copy)]
pub struct Approval {
    pub owner: AccountId,
    pub spender: AccountId,
    pub amount: u128,
}

/// The environment of a call: who calls, the called contract, the block
/// timestamp and the native value sent along.
#[derive(Debug, Clone, Copy)]
pub struct CallContext {
    pub caller: AccountId,
    pub this: AccountId,
    pub now: u64,
    pub transferred_value: u128,
}

/// A native transfer of the gas collateral back to an account.
#[derive(Debug, Clone, Copy)]
pub struct GasRefund {
    pub to: AccountId,
    pub amount: u128,
}

} // verus!
