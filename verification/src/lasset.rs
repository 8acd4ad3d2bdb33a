//! A lending pool of one underlying token (an "L-asset").
//!
//! Lenders `mint` pool shares for underlying tokens and `burn` them back;
//! the pool's liquidity grows with the interest that borrowers owe. Borrowers
//! hold bonds, a share of the total debt. A user either deposits collateral
//! in a pool or borrows from it, never both; the pools of a ring report to
//! each other the values of a user's collateral and debt, so that a borrow
//! or a withdrawal is allowed only while the user's collateral outweighs its
//! debt across the ring, and a liquidation only once it no longer does.
//!
//! Every call into another contract (token transfers, the reports of the
//! other pools of the ring) is made by the caller of these functions, which
//! hands their outcomes in. An operation that fails before its last
//! outgoing transfer leaves the pool unchanged; where the books are updated
//! before that transfer (withdraw, burn, borrow, liquidate, withdraw_cash,
//! take_cash), a failed transfer is reported with the books updated.
use vstd::prelude::*;
use crate::account::{AccountId, AccountPair};
use crate::errors::{LAssetError, PSP22Error, TakeCashError};
use crate::map::KeyMap;
use crate::structs::{
    AssetParams, CallContext, GasRefund, Transfer, UpdateResult,
    RepayOrUpdateResult,
};
use crate::valuation::{
    sat, min_u128, scale_up, interest, interest_rate, accrued_liquidity, quote_down, quote_up,
    collateral_value, debt_value, bond_debt, lemma_mul_div_le, lemma_ceil_mul_div_le,
    lemma_borrow_bounds, lemma_repay_bounds, bond_debt_up, sum_u128, lemma_sum_u128_nonneg,
};
use crate::wide::ceil_div;
use vstd::string::StringExecFns;
use crate::wide::{limb, mulw};

verus! {

/// `a * b`, saturating at `u128::MAX`.
pub fn saturating_mul(a: u128, b: u128) -> (r: u128)
    ensures
        r == sat(a * b),
{
    match a.checked_mul(b) {
        Some(x) => x,
        None => u128::MAX,
    }
}

/// `pool` is the token entry `token` prefixed with `L-`, or absent when it is.
pub open spec fn l_prefixed(token: Option<String>, pool: Option<String>) -> bool {
    match token {
        Some(n) => pool is Some && pool.unwrap()@ == seq!['L', '-'] + n@,
        None => pool is None,
    }
}

/// The token's decimals, 6 when the token does not tell.
pub open spec fn decimals_or_default(decimals: Option<u8>) -> u8 {
    match decimals {
        Some(d) => d,
        None => 6u8,
    }
}

/// The metadata of a pool from that of its underlying token: the name and
/// symbol prefixed with `L-`, and the token's decimals (6 when the token does
/// not tell). Each argument is the token's answer, `None` when the query
/// failed or the token has no such entry.
pub fn fetch_psp22_metadata(
    name: Option<String>,
    symbol: Option<String>,
    decimals: Option<u8>,
) -> (r: (Option<String>, Option<String>, u8))
    ensures
        l_prefixed(name, r.0),
        l_prefixed(symbol, r.1),
        r.2 == decimals_or_default(decimals),
{
    proof {
        reveal_strlit("L-");
    }
    let l_name = match name {
        Some(n) => {
            let s = "L-".to_owned().concat(n.as_str());
            assert(s@ =~= seq!['L', '-'] + n@);
            Some(s)
        },
        None => None,
    };
    let l_symbol = match symbol {
        Some(n) => {
            let s = "L-".to_owned().concat(n.as_str());
            assert(s@ =~= seq!['L', '-'] + n@);
            Some(s)
        },
        None => None,
    };
    let d = match decimals {
        Some(d) => d,
        None => 6u8,
    };
    (l_name, l_symbol, d)
}

/// The interest owed never wraps: it is at most the debt.
proof fn lemma_interest_fits(debt: u128, rate: u128)
    ensures
        interest(debt as int, rate) <= debt,
        scale_up(debt * rate) == interest(debt as int, rate),
{
    let d = debt as int;
    let r = rate as int;
    let m = limb() as int;
    assert(0 <= d * r) by (nonlinear_arith)
        requires
            0 <= d,
            0 <= r,
    ;
    if d * r != 0 {
        assert(d * r <= d * (m - 1)) by (nonlinear_arith)
            requires
                0 <= d,
                r <= m - 1,
        ;
        assert(d * (m - 1) == d * m - d) by (nonlinear_arith);
        assert(d >= 1) by (nonlinear_arith)
            requires
                d * r != 0,
                0 <= d,
        ;
        vstd::arithmetic::div_mod::lemma_div_is_ordered(d * r, d * m - d, m);
        assert((d * m - d) / m == d - 1) by {
            vstd::arithmetic::div_mod::lemma_fundamental_div_mod_converse(d * m - d, m, d - 1, m - d);
        }
    } else {
        assert(d * r / m == 0);
    }
    vstd::arithmetic::div_mod::lemma_div_pos_is_pos(d * r, m);
}

/// `m * part / whole` (zero when `whole` is zero), for `part <= whole`.
fn share_of(m: u128, part: u128, whole: u128) -> (r: u128)
    requires
        part <= whole,
    ensures
        r == (if whole == 0 {
            0int
        } else {
            m * part / (whole as int)
        }),
{
    proof {
        if whole > 0 {
            lemma_mul_div_le(m as int, part as int, whole as int);
        }
    }
    mulw(m, part).div_rate(whole).unwrap_or(0)
}

/// The interest rate of [`interest_rate`] over `delta` units of time.
fn current_rate(p: &AssetParams, liquidity: u128, borrowable: u128, delta: u128) -> (r: u128)
    requires
        borrowable <= liquidity,
    ensures
        r == interest_rate(*p, liquidity, borrowable, delta as nat),
{
    let standard_matured = saturating_mul(p.standard_rate, delta);
    let emergency_matured = saturating_mul(p.emergency_rate, delta);
    let debt = crate::wide::sub(liquidity, borrowable);
    let standard_scaled = share_of(standard_matured, debt, liquidity);
    let emergency_scaled = share_of(emergency_matured, borrowable, liquidity);
    let standard_final = standard_scaled.saturating_add(p.standard_min_rate);
    let emergency_final = p.emergency_max_rate.saturating_sub(emergency_scaled);
    if standard_final >= emergency_final {
        standard_final
    } else {
        emergency_final
    }
}

/// Sum of the initial collateral values that the pools of a ring report.
pub open spec fn sum_collateral_values(s: Seq<UpdateResult>) -> int
    decreases s.len(),
{
    if s.len() == 0 {
        0
    } else {
        sum_collateral_values(s.drop_last()) + s.last().initial_collateral_value
    }
}

/// Sum of the initial debt values that the pools of a ring report.
pub open spec fn sum_debt_values(s: Seq<UpdateResult>) -> int
    decreases s.len(),
{
    if s.len() == 0 {
        0
    } else {
        sum_debt_values(s.drop_last()) + s.last().initial_debt_value
    }
}

proof fn lemma_sums_nonneg(s: Seq<UpdateResult>)
    ensures
        sum_collateral_values(s) >= 0,
        sum_debt_values(s) >= 0,
    decreases s.len(),
{
    if s.len() > 0 {
        lemma_sums_nonneg(s.drop_last());
    }
}

/// Collateral and debt values of a user across the other pools of a ring,
/// added to this pool's own values `icv` and `idv`, saturating.
fn ring_update_totals(updates: &Vec<UpdateResult>, icv: u128, idv: u128) -> (r: (u128, u128))
    ensures
        r.0 == sat(icv + sum_collateral_values(updates@)),
        r.1 == sat(idv + sum_debt_values(updates@)),
{
    let mut total_icv = icv;
    let mut total_idv = idv;
    let mut i: usize = 0;
    let n = updates.len();
    while i < n
        invariant
            n == updates@.len(),
            i <= n,
            total_icv == sat(icv + sum_collateral_values(updates@.take(i as int))),
            total_idv == sat(idv + sum_debt_values(updates@.take(i as int))),
        decreases n - i,
    {
        let u = updates[i];
        proof {
            assert(updates@.take(i + 1).drop_last() =~= updates@.take(i as int));
            lemma_sums_nonneg(updates@.take(i as int));
        }
        total_icv = total_icv.saturating_add(u.initial_collateral_value);
        total_idv = total_idv.saturating_add(u.initial_debt_value);
        i = i + 1;
    }
    proof {
        assert(updates@.take(n as int) =~= updates@);
    }
    (total_icv, total_idv)
}

/// [`collateral_value`] of `amount`.
fn collateral_value_of(amount: u128, price: u128, scaler: u128, haircut: u128) -> (r: u128)
    ensures
        r == collateral_value(amount, price, scaler, haircut),
{
    match mulw(amount, price).div(scaler) {
        Some(q) => mulw(q, haircut).scale(),
        None => u128::MAX,
    }
}

/// [`quote_up`] of `amount`.
fn quote_up_of(amount: u128, price: u128, scaler: u128) -> (r: u128)
    ensures
        r == quote_up(amount, price, scaler),
{
    mulw(amount, price).ceil_up(scaler).unwrap_or(u128::MAX)
}

/// [`debt_value`] of a quoted debt.
fn debt_value_of(quoted: u128, margin: u128) -> (r: u128)
    ensures
        r == debt_value(quoted, margin),
{
    mulw(quoted, margin).scale_up().saturating_add(quoted)
}

/// [`bond_debt`] of `bonds`.
fn bond_debt_of(bonds: u128, total_debt: u128, total_bonds: u128) -> (r: u128)
    ensures
        r == bond_debt(bonds, total_debt, total_bonds),
{
    mulw(bonds, total_debt).ceil_rate(total_bonds).unwrap_or(total_debt)
}

/// The shares minted for lending `to_wrap` (paying `to_transfer` with the
/// fee) when `total_shares` shares stand for `liquidity`: in proportion,
/// rounded down; the whole payment for the first shares.
pub open spec fn minted_shares(to_wrap: u128, to_transfer: int, total_shares: u128, liquidity: u128) -> int {
    if liquidity == 0 {
        to_transfer
    } else {
        to_wrap * total_shares / (liquidity as int)
    }
}

/// The liquidity paid out for burning `to_burn` of `total_shares` shares
/// that stand for `liquidity`: in proportion, rounded down.
pub open spec fn burned_liquidity(to_burn: u128, total_shares: u128, liquidity: u128) -> int {
    if total_shares == 0 {
        0
    } else {
        to_burn * liquidity / (total_shares as int)
    }
}

/// Burning `b` of `s` shares of a liquidity `l >= s` keeps shares within liquidity.
proof fn lemma_burn_keeps_ratio(b: int, s: int, l: int)
    requires
        0 <= b <= s,
        s <= l,
        s > 0,
    ensures
        b * l / s <= l,
        s - b <= l - b * l / s,
{
    lemma_mul_div_le(l, b, s);
    let q = b * l / s;
    vstd::arithmetic::div_mod::lemma_fundamental_div_mod(b * l, s);
    let r = (b * l) % s;
    assert(0 <= r < s) by {
        vstd::arithmetic::div_mod::lemma_mod_bound(b * l, s);
    }
    assert(q <= l - s + b) by (nonlinear_arith)
        requires
            b * l == s * q + r,
            0 <= r < s,
            0 <= b <= s,
            s <= l,
            s > 0,
    ;
}

/// The bonds minted for a new debt `r` when `total_bonds` bonds stand for
/// `total_debt`: `r` times the bonds per unit of debt, rounded up; `r` when
/// there is no debt.
fn bonds_to_mint(r: u128, total_bonds: u128, total_debt: u128) -> (to_mint: u128)
    requires
        total_bonds <= total_debt,
    ensures
        to_mint == (if total_debt == 0 {
            r as int
        } else {
            ceil_div((r * total_bonds) as nat, total_debt as nat) as int
        }),
        to_mint <= r,
        total_bonds + to_mint <= total_debt + r,
{
    proof {
        lemma_borrow_bounds(r as int, total_bonds as int, total_debt as int);
    }
    mulw(r, total_bonds).ceil_rate(total_debt).unwrap_or(r)
}

/// The bonds burnt and the debt repaid when `cash` repays a debt of `bonds`
/// bonds, `total_bonds` standing for `total_debt`.
fn repay_split(cash: u128, bonds: u128, total_bonds: u128, total_debt: u128) -> (r: (u128, u128))
    requires
        bonds <= total_bonds <= total_debt,
    ensures
        ({
            let max_to_burn: int = if total_debt == 0 {
                0
            } else {
                cash * total_bonds / (total_debt as int)
            };
            let to_burn: int = if max_to_burn <= bonds {
                max_to_burn
            } else {
                bonds as int
            };
            &&& r.0 == to_burn
            &&& r.1 == (if total_bonds == 0 {
                0
            } else {
                ceil_div((to_burn * total_debt) as nat, total_bonds as nat) as int
            })
        }),
        r.0 <= bonds,
        r.1 <= cash,
        r.1 <= total_debt,
        total_bonds - r.0 <= total_debt - r.1,
{
    proof {
        lemma_repay_bounds(cash as int, bonds as int, total_bonds as int, total_debt as int);
    }
    let max_to_burn = mulw(cash, total_bonds).div_rate(total_debt).unwrap_or(0);
    let to_burn = if max_to_burn <= bonds {
        max_to_burn
    } else {
        bonds
    };
    let repaid = mulw(to_burn, total_debt).ceil_rate(total_bonds).unwrap_or(0);
    (to_burn, repaid)
}

/// The pools that the reports of a walk of the ring name as next, in order.
pub open spec fn update_nexts(s: Seq<UpdateResult>) -> Seq<AccountId> {
    s.map_values(|x: UpdateResult| x.next)
}

/// The pools that the reports of a liquidation name as next, in order.
pub open spec fn report_nexts(s: Seq<RepayOrUpdateResult>) -> Seq<AccountId> {
    s.map_values(|x: RepayOrUpdateResult| x.next)
}

/// The `next` of the report before the `i`-th of a walk (`None` for the
/// first).
pub open spec fn walk_last(nexts: Seq<AccountId>, i: int) -> Option<AccountId> {
    if i == 0 {
        None
    } else {
        Some(nexts[i - 1])
    }
}

/// Initial collateral values reported during a liquidation.
pub open spec fn report_icv(s: Seq<RepayOrUpdateResult>) -> Seq<u128> {
    s.map_values(|x: RepayOrUpdateResult| x.initial_collateral_value)
}

/// Initial debt values reported during a liquidation.
pub open spec fn report_idv(s: Seq<RepayOrUpdateResult>) -> Seq<u128> {
    s.map_values(|x: RepayOrUpdateResult| x.initial_debt_value)
}

/// Maintenance collateral values reported during a liquidation.
pub open spec fn report_mcv(s: Seq<RepayOrUpdateResult>) -> Seq<u128> {
    s.map_values(|x: RepayOrUpdateResult| x.maintenance_collateral_value)
}

/// Maintenance debt values reported during a liquidation.
pub open spec fn report_mdv(s: Seq<RepayOrUpdateResult>) -> Seq<u128> {
    s.map_values(|x: RepayOrUpdateResult| x.maintenance_debt_value)
}

/// The value that a liquidation counts as repaid across the ring: what the
/// last pool of the walk reports as repaid, added to itself (saturating);
/// zero when there are no reports.
pub open spec fn liquidation_repaid(s: Seq<RepayOrUpdateResult>) -> u128 {
    if s.len() == 0 {
        0
    } else {
        sat(s.last().repaid + s.last().repaid)
    }
}

/// The totals of the reports of a liquidation: the repaid value that it
/// counts, and the saturating sums of the initial and maintenance values of
/// collateral and debt.
fn ring_report_totals(reports: &Vec<RepayOrUpdateResult>) -> (r: (u128, u128, u128, u128, u128))
    ensures
        r.0 == liquidation_repaid(reports@),
        r.1 == sat(sum_u128(report_icv(reports@))),
        r.2 == sat(sum_u128(report_idv(reports@))),
        r.3 == sat(sum_u128(report_mcv(reports@))),
        r.4 == sat(sum_u128(report_mdv(reports@))),
{
    let mut total_repaid: u128 = 0;
    let mut total_icv: u128 = 0;
    let mut total_idv: u128 = 0;
    let mut total_mcv: u128 = 0;
    let mut total_mdv: u128 = 0;
    let n = reports.len();
    let mut i: usize = 0;
    while i < n
        invariant
            n == reports@.len(),
            i <= n,
            total_repaid == liquidation_repaid(reports@.take(i as int)),
            total_icv == sat(sum_u128(report_icv(reports@.take(i as int)))),
            total_idv == sat(sum_u128(report_idv(reports@.take(i as int)))),
            total_mcv == sat(sum_u128(report_mcv(reports@.take(i as int)))),
            total_mdv == sat(sum_u128(report_mdv(reports@.take(i as int)))),
        decreases n - i,
    {
        let x = reports[i];
        proof {
            let t = reports@.take(i as int);
            let t1 = reports@.take(i + 1);
            assert(t1.drop_last() =~= t);
            assert(report_icv(t1).drop_last() =~= report_icv(t));
            assert(report_idv(t1).drop_last() =~= report_idv(t));
            assert(report_mcv(t1).drop_last() =~= report_mcv(t));
            assert(report_mdv(t1).drop_last() =~= report_mdv(t));
            lemma_sum_u128_nonneg(report_icv(t));
            lemma_sum_u128_nonneg(report_idv(t));
            lemma_sum_u128_nonneg(report_mcv(t));
            lemma_sum_u128_nonneg(report_mdv(t));
        }
        total_repaid = x.repaid.saturating_add(x.repaid);
        total_icv = total_icv.saturating_add(x.initial_collateral_value);
        total_idv = total_idv.saturating_add(x.initial_debt_value);
        total_mcv = total_mcv.saturating_add(x.maintenance_collateral_value);
        total_mdv = total_mdv.saturating_add(x.maintenance_debt_value);
        i = i + 1;
    }
    proof {
        assert(reports@.take(n as int) =~= reports@);
    }
    (total_repaid, total_icv, total_idv, total_mcv, total_mdv)
}

/// [`bond_debt_up`] of `bonds`.
fn bond_debt_up_of(bonds: u128, total_debt: u128, total_bonds: u128) -> (r: u128)
    ensures
        r == bond_debt_up(bonds, total_debt, total_bonds),
{
    mulw(bonds, total_debt).ceil_up(total_bonds).unwrap_or(total_debt)
}

/// A lending pool.
#[derive(Clone)]
pub struct LAssetContract {
    pub admin: AccountId,
    pub underlying_token: AccountId,
    pub last_updated_at: u64,
    pub next: AccountId,
    pub total_collateral: u128,
    pub collateral: KeyMap<AccountId, u128>,
    pub last_total_liquidity: u128,
    pub total_borrowable: u128,
    pub total_shares: u128,
    pub shares: KeyMap<AccountId, u128>,
    pub allowance: KeyMap<AccountPair, u128>,
    pub total_bonds: u128,
    pub bonds: KeyMap<AccountId, u128>,
    pub params: AssetParams,
    pub price: u128,
    pub price_scaler: u128,
    pub cash: KeyMap<AccountId, u128>,
    pub whitelist: KeyMap<AccountId, AccountId>,
    pub name: Option<String>,
    pub symbol: Option<String>,
    pub decimals: u8,
    pub gas_collateral: u128,
}

impl LAssetContract {
    /// The pool's books are consistent: each total is the sum of its
    /// per-account table; shares and available liquidity never exceed the
    /// liquidity, nor bonds the lent liquidity; and no account both deposits
    /// collateral and borrows here.
    pub open spec fn wf(&self) -> bool {
        &&& self.collateral.wf()
        &&& self.shares.wf()
        &&& self.allowance.wf()
        &&& self.bonds.wf()
        &&& self.cash.wf()
        &&& self.whitelist.wf()
        &&& self.collateral.total() == self.total_collateral
        &&& self.shares.total() == self.total_shares
        &&& self.bonds.total() == self.total_bonds
        &&& self.total_shares <= self.last_total_liquidity
        &&& self.total_borrowable <= self.last_total_liquidity
        &&& self.total_bonds <= self.last_total_liquidity - self.total_borrowable
        &&& forall|u: AccountId|
            !(#[trigger] self.collateral@.contains_key(u) && self.bonds@.contains_key(u))
    }

    /// The total liquidity and the time of the last update after accruing
    /// interest up to `now`.
    pub open spec fn accrued(&self, now: u64) -> (u128, u64) {
        if now > self.last_updated_at {
            (
                accrued_liquidity(
                    self.params,
                    self.last_total_liquidity,
                    self.total_borrowable,
                    (now - self.last_updated_at) as nat,
                ),
                now,
            )
        } else {
            (self.last_total_liquidity, self.last_updated_at)
        }
    }

    /// The debt that the lent liquidity makes, after accruing up to `now`.
    pub open spec fn accrued_debt(&self, now: u64) -> u128 {
        (self.accrued(now).0 - self.total_borrowable) as u128
    }

    /// A value of `key` in a table, zero when there is none.
    pub open spec fn value_or_zero(m: Map<AccountId, u128>, key: AccountId) -> u128 {
        if m.contains_key(key) {
            m[key]
        } else {
            0
        }
    }

    /// The same pool with the interest accrued up to `now`.
    pub open spec fn with_accrued(self, now: u64) -> Self {
        LAssetContract {
            last_total_liquidity: self.accrued(now).0,
            last_updated_at: self.accrued(now).1,
            ..self
        }
    }

    /// A new pool of `underlying_token`, created by `caller` at time `now`,
    /// followed in the ring by `next`. The pool's metadata is derived from the
    /// token's answers `token_name`, `token_symbol` and `token_decimals` as
    /// [`fetch_psp22_metadata`] says. It starts empty, with a zero price (and
    /// a price scaler of one), zero rates, margins and fees, and full haircuts.
    pub fn new(
        underlying_token: AccountId,
        next: AccountId,
        gas_collateral: u128,
        caller: AccountId,
        now: u64,
        token_name: Option<String>,
        token_symbol: Option<String>,
        token_decimals: Option<u8>,
    ) -> (c: Self)
        ensures
            c.wf(),
            c.admin == caller,
            c.underlying_token == underlying_token,
            c.last_updated_at == now,
            c.next == next,
            c.gas_collateral == gas_collateral,
            c.total_collateral == 0 && c.last_total_liquidity == 0 && c.total_borrowable == 0,
            c.total_shares == 0 && c.total_bonds == 0,
            c.collateral@ == Map::<AccountId, u128>::empty(),
            c.shares@ == Map::<AccountId, u128>::empty(),
            c.allowance@ == Map::<AccountPair, u128>::empty(),
            c.bonds@ == Map::<AccountId, u128>::empty(),
            c.cash@ == Map::<AccountId, u128>::empty(),
            c.whitelist@ == Map::<AccountId, AccountId>::empty(),
            c.params == (AssetParams {
                initial_haircut: u128::MAX,
                maintenance_haircut: u128::MAX,
                ..AssetParams::zero_spec()
            }),
            c.price == 0,
            c.price_scaler == 1,
            l_prefixed(token_name, c.name),
            l_prefixed(token_symbol, c.symbol),
            c.decimals == decimals_or_default(token_decimals),
    {
        let (name, symbol, decimals) = fetch_psp22_metadata(token_name, token_symbol, token_decimals);
        let c = LAssetContract {
            admin: caller,
            underlying_token,
            last_updated_at: now,
            next,
            total_collateral: 0,
            collateral: KeyMap::new(),
            last_total_liquidity: 0,
            total_shares: 0,
            shares: KeyMap::new(),
            allowance: KeyMap::new(),
            total_borrowable: 0,
            total_bonds: 0,
            bonds: KeyMap::new(),
            params: AssetParams {
                standard_rate: 0,
                standard_min_rate: 0,
                emergency_rate: 0,
                emergency_max_rate: 0,
                initial_margin: 0,
                maintenance_margin: 0,
                initial_haircut: u128::MAX,
                maintenance_haircut: u128::MAX,
                mint_fee: 0,
                borrow_fee: 0,
                take_cash_fee: 0,
                liquidation_reward: 0,
            },
            price: 0,
            price_scaler: 1,
            cash: KeyMap::new(),
            whitelist: KeyMap::new(),
            name,
            symbol,
            decimals,
            gas_collateral,
        };
        proof {
            c.collateral.lemma_empty_total();
            c.shares.lemma_empty_total();
            c.bonds.lemma_empty_total();
        }
        c
    }

    /// Total liquidity and update time after accruing interest up to `now`,
    /// with `total_borrowable` as the available liquidity.
    fn inner_accrue(&self, total_borrowable: u128, now: u64) -> (r: (u128, u64))
        requires
            total_borrowable <= self.last_total_liquidity,
            total_borrowable == self.total_borrowable,
        ensures
            r == self.accrued(now),
            r.0 >= self.last_total_liquidity,
    {
        let updated_at = self.last_updated_at;
        let total_liquidity = self.last_total_liquidity;
        if now > updated_at {
            let delta = crate::wide::sub(now as u128, updated_at as u128);
            let debt = crate::wide::sub(total_liquidity, total_borrowable);
            let interest_rate = current_rate(&self.params, total_liquidity, total_borrowable, delta);
            let interest = mulw(debt, interest_rate).scale_up();
            proof {
                lemma_interest_fits(debt, interest_rate);
            }
            (total_liquidity.saturating_add(interest), now)
        } else {
            (total_liquidity, updated_at)
        }
    }

    /// Accrues interest up to `now`.
    pub fn accrue(&mut self, now: u64) -> (r: Result<(), LAssetError>)
        requires
            old(self).wf(),
        ensures
            final(self).wf(),
            r is Ok,
            *final(self) == old(self).with_accrued(now),
    {
        let (total_liquidity, updated_at) = self.inner_accrue(self.total_borrowable, now);
        self.last_total_liquidity = total_liquidity;
        self.last_updated_at = updated_at;
        Ok(())
    }
}


impl LAssetContract {
    /// `ctx.caller` deposits `to_deposit` underlying tokens as collateral.
    /// `pulled` is the outcome of the token transfer of `to_deposit` from the
    /// caller to this pool. A first deposit must carry the gas collateral
    /// as native value, and an account that borrows here cannot deposit.
    pub fn deposit(
        &mut self,
        ctx: CallContext,
        to_deposit: u128,
        pulled: Result<(), PSP22Error>,
    ) -> (r: Result<(), LAssetError>)
        requires
            old(self).wf(),
        ensures
            final(self).wf(),
            r is Err ==> *final(self) == *old(self),
            match pulled {
                Err(e) => r == Err::<(), LAssetError>(LAssetError::DepositTransferFailed(e)),
                Ok(_) => {
                    let present = old(self).collateral@.contains_key(ctx.caller);
                    if !present && old(self).bonds@.contains_key(ctx.caller) {
                        r == Err::<(), LAssetError>(LAssetError::DepositWhileBorrowingNotAllowed)
                    } else if !present && ctx.transferred_value != old(self).gas_collateral {
                        r == Err::<(), LAssetError>(LAssetError::FirstDepositRequiresGasCollateral)
                    } else if old(self).total_collateral + to_deposit > u128::MAX {
                        r == Err::<(), LAssetError>(LAssetError::DepositOverflow)
                    } else {
                        &&& r is Ok
                        &&& final(self).collateral@ == old(self).collateral@.insert(
                            ctx.caller,
                            (Self::value_or_zero(old(self).collateral@, ctx.caller)
                                + to_deposit) as u128,
                        )
                        &&& *final(self) == (LAssetContract {
                            total_collateral: (old(self).total_collateral + to_deposit) as u128,
                            collateral: final(self).collateral,
                            ..*old(self)
                        })
                    }
                },
            },
    {
        if let Err(e) = pulled {
            return Err(LAssetError::DepositTransferFailed(e));
        }
        let caller = ctx.caller;
        let collateral = if let Some(c) = self.collateral.get(&caller) {
            proof {
                self.collateral.lemma_value_le_total(caller);
            }
            c
        } else if self.bonds.contains(&caller) {
            return Err(LAssetError::DepositWhileBorrowingNotAllowed);
        } else if ctx.transferred_value != self.gas_collateral {
            return Err(LAssetError::FirstDepositRequiresGasCollateral);
        } else {
            0
        };
        let new_total_collateral = match self.total_collateral.checked_add(to_deposit) {
            Some(x) => x,
            None => {
                return Err(LAssetError::DepositOverflow);
            },
        };
        let new_collateral = crate::wide::add(collateral, to_deposit);
        self.total_collateral = new_total_collateral;
        self.collateral.insert_value(caller, new_collateral);
        Ok(())
    }

    /// The pool to ask next on a walk of the ring from this pool (at
    /// `this`), given the `next` named by the last report (`None` before the
    /// first): the pool after this one, then each pool that a report names,
    /// until the walk is back here (`None`).
    pub open spec fn ring_step(&self, this: AccountId, last: Option<AccountId>) -> Option<AccountId> {
        let current = match last {
            Some(n) => n,
            None => self.next,
        };
        if current == this {
            None
        } else {
            Some(current)
        }
    }

    /// `nexts`, the pools named as next by the reports of a walk of the
    /// ring from this pool (at `this`), make the full walk of
    /// [`Self::ring_step`]: each pool asked is another pool, and the last
    /// report leads back here (with no report at all, this pool is alone in
    /// its ring).
    pub open spec fn is_full_walk(&self, this: AccountId, nexts: Seq<AccountId>) -> bool {
        &&& forall|i: int|
            0 <= i < nexts.len() ==> #[trigger] self.ring_step(this, walk_last(nexts, i)) is Some
        &&& self.ring_step(this, walk_last(nexts, nexts.len() as int)) is None
    }

    /// See [`Self::ring_step`]: the walk whose reports [`Self::withdraw`],
    /// [`Self::borrow`] and [`Self::liquidate`] take.
    pub fn ring_next(&self, this: AccountId, last: Option<AccountId>) -> (r: Option<AccountId>)
        ensures
            r == self.ring_step(this, last),
    {
        let current = match last {
            Some(n) => n,
            None => self.next,
        };
        if current == this {
            None
        } else {
            Some(current)
        }
    }

    /// What [`Self::withdraw`] answers before the other pools of the ring
    /// are asked: an error when `caller` has no deposit here or less than
    /// `to_withdraw`; `Ok` when the withdrawal goes on to the health check.
    pub fn withdraw_check(&self, caller: AccountId, to_withdraw: u128) -> (r: Result<(), LAssetError>)
        requires
            self.wf(),
        ensures
            !self.collateral@.contains_key(caller) ==> r == Err::<(), LAssetError>(
                LAssetError::WithdrawWithoutDeposit,
            ),
            self.collateral@.contains_key(caller) && to_withdraw > self.collateral@[caller] ==> r
                == Err::<(), LAssetError>(LAssetError::WithdrawOverflow),
            self.collateral@.contains_key(caller) && to_withdraw <= self.collateral@[caller] ==> r
                == Ok::<(), LAssetError>(()),
    {
        match self.collateral.get(&caller) {
            None => Err(LAssetError::WithdrawWithoutDeposit),
            Some(collateral) => if to_withdraw > collateral {
                Err(LAssetError::WithdrawOverflow)
            } else {
                Ok(())
            },
        }
    }

    /// `ctx.caller` withdraws `to_withdraw` of its collateral. `updates` are
    /// the reports about the caller of the other pools of the ring, and `sent`
    /// the outcome of the token transfer of `to_withdraw` to the caller. The
    /// withdrawal is allowed while the caller has no debt across the ring, or
    /// its collateral still outweighs it. Withdrawing everything refunds the
    /// gas collateral. The books are updated, and the refund made, before the
    /// transfer: a failed transfer is reported with them in place.
    pub fn withdraw(
        &mut self,
        ctx: CallContext,
        to_withdraw: u128,
        updates: &Vec<UpdateResult>,
        sent: Result<(), PSP22Error>,
    ) -> (r: (Result<(), LAssetError>, Option<GasRefund>))
        requires
            old(self).wf(),
            old(self).is_full_walk(ctx.this, update_nexts(updates@)),
        ensures
            final(self).wf(),
            !old(self).collateral@.contains_key(ctx.caller) ==> {
                &&& r == (
                    Err::<(), LAssetError>(LAssetError::WithdrawWithoutDeposit),
                    None::<GasRefund>,
                )
                &&& *final(self) == *old(self)
            },
            old(self).collateral@.contains_key(ctx.caller) && to_withdraw > old(
                self,
            ).collateral@[ctx.caller] ==> {
                &&& r == (Err::<(), LAssetError>(LAssetError::WithdrawOverflow), None::<GasRefund>)
                &&& *final(self) == *old(self)
            },
            old(self).collateral@.contains_key(ctx.caller) && to_withdraw <= old(
                self,
            ).collateral@[ctx.caller] ==> {
                let new_collateral = (old(self).collateral@[ctx.caller] - to_withdraw) as u128;
                let icv = sat(
                    collateral_value(
                        new_collateral,
                        old(self).price,
                        old(self).price_scaler,
                        old(self).params.initial_haircut,
                    ) + sum_collateral_values(updates@),
                );
                let idv = sat(sum_debt_values(updates@));
                if !(idv == 0 || icv > idv) {
                    &&& r == (
                        Err::<(), LAssetError>(LAssetError::CollateralValueTooLowAfterWithdraw),
                        None::<GasRefund>,
                    )
                    &&& *final(self) == *old(self)
                } else {
                    &&& r.0 == match sent {
                        Err(e) => Err::<(), LAssetError>(LAssetError::WithdrawTransferFailed(e)),
                        Ok(_) => Ok::<(), LAssetError>(()),
                    }
                    &&& r.1 == (if new_collateral == 0 {
                        Some(GasRefund { to: ctx.caller, amount: old(self).gas_collateral })
                    } else {
                        None
                    })
                    &&& final(self).collateral@ == (if new_collateral == 0 {
                        old(self).collateral@.remove(ctx.caller)
                    } else {
                        old(self).collateral@.insert(ctx.caller, new_collateral)
                    })
                    &&& *final(self) == (LAssetContract {
                        total_collateral: (old(self).total_collateral - to_withdraw) as u128,
                        collateral: final(self).collateral,
                        ..*old(self)
                    })
                }
            },
    {
        let caller = ctx.caller;
        let collateral = match self.collateral.get(&caller) {
            Some(c) => c,
            None => {
                return (Err(LAssetError::WithdrawWithoutDeposit), None);
            },
        };
        let new_collateral = match collateral.checked_sub(to_withdraw) {
            Some(x) => x,
            None => {
                return (Err(LAssetError::WithdrawOverflow), None);
            },
        };
        proof {
            self.collateral.lemma_value_le_total(caller);
        }
        let new_total_collateral = crate::wide::sub(self.total_collateral, to_withdraw);
        let own_icv = collateral_value_of(
            new_collateral,
            self.price,
            self.price_scaler,
            self.params.initial_haircut,
        );
        let (total_icv, total_idv) = ring_update_totals(updates, own_icv, 0);
        if !(total_idv == 0 || total_icv > total_idv) {
            return (Err(LAssetError::CollateralValueTooLowAfterWithdraw), None);
        }
        self.total_collateral = new_total_collateral;
        let refund = if new_collateral != 0 {
            self.collateral.insert_value(caller, new_collateral);
            None
        } else {
            self.collateral.remove_value(&caller);
            Some(GasRefund { to: caller, amount: self.gas_collateral })
        };
        match sent {
            Err(e) => (Err(LAssetError::WithdrawTransferFailed(e)), refund),
            Ok(_) => (Ok(()), refund),
        }
    }

    /// The fee of minting shares for `to_wrap` underlying tokens.
    pub open spec fn mint_fee_of(&self, to_wrap: u128) -> u128 {
        scale_up(to_wrap * self.params.mint_fee)
    }

    /// The underlying tokens that minting for `to_wrap` takes from the caller:
    /// `to_wrap` and the mint fee; `None` when that overflows.
    pub fn mint_transfer_amount(&self, to_wrap: u128) -> (r: Option<u128>)
        ensures
            r == (if to_wrap + self.mint_fee_of(to_wrap) > u128::MAX {
                None
            } else {
                Some((to_wrap + self.mint_fee_of(to_wrap)) as u128)
            }),
    {
        let fee = mulw(to_wrap, self.params.mint_fee).scale_up();
        to_wrap.checked_add(fee)
    }

    /// `ctx.caller` lends `to_wrap` underlying tokens (and pays the mint fee)
    /// for pool shares. `pulled` is the outcome of the token transfer of
    /// [`Self::mint_transfer_amount`] from the caller to this pool. The shares
    /// minted are `to_wrap` times the shares per unit of liquidity, rounded
    /// down; the first lender gets one share per token transferred.
    pub fn mint(
        &mut self,
        ctx: CallContext,
        to_wrap: u128,
        pulled: Result<(), PSP22Error>,
    ) -> (r: Result<Transfer, LAssetError>)
        requires
            old(self).wf(),
        ensures
            final(self).wf(),
            r is Err ==> *final(self) == *old(self),
            to_wrap + old(self).mint_fee_of(to_wrap) > u128::MAX ==> r == Err::<
                Transfer,
                LAssetError,
            >(LAssetError::MintFeeOverflow),
            to_wrap + old(self).mint_fee_of(to_wrap) <= u128::MAX ==> {
                let to_transfer = to_wrap + old(self).mint_fee_of(to_wrap);
                let (liquidity, updated_at) = old(self).accrued(ctx.now);
                match pulled {
                    Err(e) => r == Err::<Transfer, LAssetError>(
                        LAssetError::MintTransferFailed(e),
                    ),
                    Ok(_) => if liquidity + to_transfer > u128::MAX {
                        r == Err::<Transfer, LAssetError>(LAssetError::MintOverflow)
                    } else {
                        let to_mint = minted_shares(
                            to_wrap,
                            to_transfer,
                            old(self).total_shares,
                            liquidity,
                        );
                        &&& r == Ok::<Transfer, LAssetError>(
                            Transfer { from: None, to: Some(ctx.caller), value: to_mint as u128 },
                        )
                        &&& final(self).shares@ == old(self).shares@.insert(
                            ctx.caller,
                            (Self::value_or_zero(old(self).shares@, ctx.caller)
                                + to_mint) as u128,
                        )
                        &&& *final(self) == (LAssetContract {
                            total_shares: (old(self).total_shares + to_mint) as u128,
                            shares: final(self).shares,
                            total_borrowable: (old(self).total_borrowable + to_transfer) as u128,
                            last_total_liquidity: (liquidity + to_transfer) as u128,
                            last_updated_at: updated_at,
                            ..*old(self)
                        })
                    },
                }
            },
    {
        let caller = ctx.caller;
        let to_transfer = match self.mint_transfer_amount(to_wrap) {
            Some(x) => x,
            None => {
                return Err(LAssetError::MintFeeOverflow);
            },
        };
        if let Err(e) = pulled {
            return Err(LAssetError::MintTransferFailed(e));
        }
        let total_borrowable = self.total_borrowable;
        let (total_liquidity, updated_at) = self.inner_accrue(total_borrowable, ctx.now);
        let total_shares = self.total_shares;
        let shares = self.shares.get(&caller).unwrap_or(0);
        proof {
            if self.shares@.contains_key(caller) {
                self.shares.lemma_value_le_total(caller);
            }
        }
        let new_total_liquidity = match total_liquidity.checked_add(to_transfer) {
            Some(x) => x,
            None => {
                return Err(LAssetError::MintOverflow);
            },
        };
        let new_total_borrowable = crate::wide::add(total_borrowable, to_transfer);
        proof {
            if total_liquidity > 0 {
                lemma_mul_div_le(to_wrap as int, total_shares as int, total_liquidity as int);
            }
        }
        let to_mint = mulw(to_wrap, total_shares).div_rate(total_liquidity).unwrap_or(to_transfer);
        let new_total_shares = crate::wide::add(total_shares, to_mint);
        let new_shares = crate::wide::add(shares, to_mint);
        self.total_shares = new_total_shares;
        self.shares.insert_value(caller, new_shares);
        self.total_borrowable = new_total_borrowable;
        self.last_total_liquidity = new_total_liquidity;
        self.last_updated_at = updated_at;
        Ok(Transfer { from: None, to: Some(caller), value: to_mint })
    }

    /// The underlying tokens paid for burning `to_burn` shares at time `now`:
    /// their part of the accrued liquidity, rounded down (the low 128 bits);
    /// zero when there are no shares.
    pub fn burn_payout(&self, now: u64, to_burn: u128) -> (r: u128)
        requires
            self.wf(),
        ensures
            r == (if self.total_shares == 0 {
                0
            } else {
                ((to_burn * self.accrued(now).0 / (self.total_shares as int)) % (
                limb() as int)) as u128
            }),
    {
        let (total_liquidity, _) = self.inner_accrue(self.total_borrowable, now);
        mulw(to_burn, total_liquidity).div_rate(self.total_shares).unwrap_or(0)
    }

    /// `ctx.caller` burns `to_burn` of its shares for their part of the
    /// liquidity, which must still be available. `sent` is the outcome of the
    /// token transfer of [`Self::burn_payout`] to the caller, made after the
    /// books are updated and the burn event is emitted; a failed transfer is
    /// reported with both in place.
    pub fn burn(
        &mut self,
        ctx: CallContext,
        to_burn: u128,
        sent: Result<(), PSP22Error>,
    ) -> (r: (Result<(), LAssetError>, Option<Transfer>))
        requires
            old(self).wf(),
        ensures
            final(self).wf(),
            ({
                let (liquidity, updated_at) = old(self).accrued(ctx.now);
                let shares = Self::value_or_zero(old(self).shares@, ctx.caller);
                let to_withdraw = burned_liquidity(to_burn, old(self).total_shares, liquidity);
                if to_burn > shares {
                    &&& r.0 == Err::<(), LAssetError>(LAssetError::BurnOverflow)
                    &&& r.1 is None
                    &&& *final(self) == *old(self)
                } else if to_withdraw > old(self).total_borrowable {
                    &&& r.0 == Err::<(), LAssetError>(LAssetError::BurnTooMuch)
                    &&& r.1 is None
                    &&& *final(self) == *old(self)
                } else {
                    &&& r.0 == match sent {
                        Err(e) => Err::<(), LAssetError>(LAssetError::BurnTransferFailed(e)),
                        Ok(_) => Ok::<(), LAssetError>(()),
                    }
                    &&& r.1 == Some(Transfer { from: Some(ctx.caller), to: None, value: to_burn })
                    &&& final(self).shares@ == old(self).shares@.insert(
                        ctx.caller,
                        (shares - to_burn) as u128,
                    )
                    &&& *final(self) == (LAssetContract {
                        total_shares: (old(self).total_shares - to_burn) as u128,
                        shares: final(self).shares,
                        total_borrowable: (old(self).total_borrowable - to_withdraw) as u128,
                        last_total_liquidity: (liquidity - to_withdraw) as u128,
                        last_updated_at: updated_at,
                        ..*old(self)
                    })
                }
            }),
    {
        let caller = ctx.caller;
        let total_borrowable = self.total_borrowable;
        let (total_liquidity, updated_at) = self.inner_accrue(total_borrowable, ctx.now);
        let total_shares = self.total_shares;
        let shares = self.shares.get(&caller).unwrap_or(0);
        proof {
            if self.shares@.contains_key(caller) {
                self.shares.lemma_value_le_total(caller);
            }
        }
        let new_shares = match shares.checked_sub(to_burn) {
            Some(x) => x,
            None => {
                return (Err(LAssetError::BurnOverflow), None);
            },
        };
        proof {
            if total_shares > 0 {
                lemma_burn_keeps_ratio(to_burn as int, total_shares as int, total_liquidity as int);
            }
        }
        let to_withdraw = mulw(to_burn, total_liquidity).div_rate(total_shares).unwrap_or(0);
        let new_total_borrowable = match total_borrowable.checked_sub(to_withdraw) {
            Some(x) => x,
            None => {
                return (Err(LAssetError::BurnTooMuch), None);
            },
        };
        let new_total_shares = crate::wide::sub(total_shares, to_burn);
        let new_total_liquidity = crate::wide::sub(total_liquidity, to_withdraw);
        self.total_shares = new_total_shares;
        self.shares.insert_value(caller, new_shares);
        self.total_borrowable = new_total_borrowable;
        self.last_total_liquidity = new_total_liquidity;
        self.last_updated_at = updated_at;
        let event = Some(Transfer { from: Some(caller), to: None, value: to_burn });
        match sent {
            Err(e) => (Err(LAssetError::BurnTransferFailed(e)), event),
            Ok(_) => (Ok(()), event),
        }
    }
}


impl LAssetContract {
    /// The fee of borrowing `to_borrow`.
    pub open spec fn borrow_fee_of(&self, to_borrow: u128) -> u128 {
        scale_up(to_borrow * self.params.borrow_fee)
    }

    /// `ctx.caller` borrows `to_borrow` underlying tokens; its debt grows by
    /// that and the borrow fee. `updates` are the reports about the caller of
    /// the other pools of the ring, and `sent` the outcome of the token
    /// transfer of `to_borrow` to the caller. A first borrow must carry the gas
    /// collateral as native value, an account that deposits here cannot
    /// borrow, and after the borrow the caller's collateral across the ring
    /// must outweigh its debt. The books are updated before the transfer: a
    /// failed transfer is reported with them in place.
    pub fn borrow(
        &mut self,
        ctx: CallContext,
        to_borrow: u128,
        updates: &Vec<UpdateResult>,
        sent: Result<(), PSP22Error>,
    ) -> (r: Result<(), LAssetError>)
        requires
            old(self).wf(),
            old(self).is_full_walk(ctx.this, update_nexts(updates@)),
        ensures
            final(self).wf(),
            r is Err && !(r matches Err(LAssetError::BorrowTransferFailed(_))) ==> *final(self)
                == *old(self),
            ({
                let present = old(self).bonds@.contains_key(ctx.caller);
                let bonds = Self::value_or_zero(old(self).bonds@, ctx.caller);
                let to_return = to_borrow + old(self).borrow_fee_of(to_borrow);
                let (liquidity, updated_at) = old(self).accrued(ctx.now);
                let debt = liquidity - old(self).total_borrowable;
                let to_mint: int = if debt == 0 {
                    to_return
                } else {
                    ceil_div(
                        (to_return * old(self).total_bonds) as nat,
                        debt as nat,
                    ) as int
                };
                let new_borrowable = old(self).total_borrowable - to_return;
                let new_total_bonds = old(self).total_bonds + to_mint;
                let new_bonds = bonds + to_mint;
                let own_debt = bond_debt(
                    new_bonds as u128,
                    (liquidity - new_borrowable) as u128,
                    new_total_bonds as u128,
                );
                let icv = sat(sum_collateral_values(updates@));
                let idv = sat(
                    debt_value(
                        quote_up(own_debt, old(self).price, old(self).price_scaler),
                        old(self).params.initial_margin,
                    ) + sum_debt_values(updates@),
                );
                if !present && old(self).collateral@.contains_key(ctx.caller) {
                    r == Err::<(), LAssetError>(LAssetError::BorrowWhileDepositingNotAllowed)
                } else if !present && ctx.transferred_value != old(self).gas_collateral {
                    r == Err::<(), LAssetError>(LAssetError::FirstBorrowRequiresGasCollateral)
                } else if to_return > u128::MAX {
                    r == Err::<(), LAssetError>(LAssetError::BorrowFeeOverflow)
                } else if to_return > old(self).total_borrowable {
                    r == Err::<(), LAssetError>(LAssetError::BorrowOverflow)
                } else if !(icv > idv) {
                    r == Err::<(), LAssetError>(LAssetError::CollateralValueTooLowAfterBorrow)
                } else {
                    &&& r == match sent {
                        Err(e) => Err::<(), LAssetError>(LAssetError::BorrowTransferFailed(e)),
                        Ok(_) => Ok::<(), LAssetError>(()),
                    }
                    &&& final(self).bonds@ == old(self).bonds@.insert(
                        ctx.caller,
                        new_bonds as u128,
                    )
                    &&& *final(self) == (LAssetContract {
                        total_bonds: new_total_bonds as u128,
                        bonds: final(self).bonds,
                        total_borrowable: new_borrowable as u128,
                        last_total_liquidity: liquidity,
                        last_updated_at: updated_at,
                        ..*old(self)
                    })
                }
            }),
    {
        let caller = ctx.caller;
        let total_borrowable = self.total_borrowable;
        let (total_liquidity, updated_at) = self.inner_accrue(total_borrowable, ctx.now);
        let bonds = if let Some(b) = self.bonds.get(&caller) {
            proof {
                self.bonds.lemma_value_le_total(caller);
            }
            b
        } else if self.collateral.contains(&caller) {
            return Err(LAssetError::BorrowWhileDepositingNotAllowed);
        } else if ctx.transferred_value != self.gas_collateral {
            return Err(LAssetError::FirstBorrowRequiresGasCollateral);
        } else {
            0
        };
        let fee = mulw(to_borrow, self.params.borrow_fee).scale_up();
        let to_return = match to_borrow.checked_add(fee) {
            Some(x) => x,
            None => {
                return Err(LAssetError::BorrowFeeOverflow);
            },
        };
        let new_total_borrowable = match total_borrowable.checked_sub(to_return) {
            Some(x) => x,
            None => {
                return Err(LAssetError::BorrowOverflow);
            },
        };
        let total_debt = crate::wide::sub(total_liquidity, total_borrowable);
        let total_bonds = self.total_bonds;
        let to_mint = bonds_to_mint(to_return, total_bonds, total_debt);
        let new_total_bonds = crate::wide::add(total_bonds, to_mint);
        let new_bonds = crate::wide::add(bonds, to_mint);
        let new_total_debt = crate::wide::sub(total_liquidity, new_total_borrowable);
        let debt = bond_debt_of(new_bonds, new_total_debt, new_total_bonds);
        let quoted_debt = quote_up_of(debt, self.price, self.price_scaler);
        let own_idv = debt_value_of(quoted_debt, self.params.initial_margin);
        let (total_icv, total_idv) = ring_update_totals(updates, 0, own_idv);
        if !(total_icv > total_idv) {
            return Err(LAssetError::CollateralValueTooLowAfterBorrow);
        }
        self.total_bonds = new_total_bonds;
        self.bonds.insert_value(caller, new_bonds);
        self.total_borrowable = new_total_borrowable;
        self.last_total_liquidity = total_liquidity;
        self.last_updated_at = updated_at;
        match sent {
            Err(e) => Err(LAssetError::BorrowTransferFailed(e)),
            Ok(_) => Ok(()),
        }
    }

    /// What [`Self::borrow`] answers before the other pools of the ring are
    /// asked: an error when the caller deposits here, when a first borrow
    /// does not bring the gas collateral, or when the amount and its fee
    /// overflow or exceed what the pool can lend; `Ok` when the borrow goes
    /// on to the health check.
    pub fn borrow_check(&self, ctx: CallContext, to_borrow: u128) -> (r: Result<(), LAssetError>)
        requires
            self.wf(),
        ensures
            ({
                let present = self.bonds@.contains_key(ctx.caller);
                let to_return = to_borrow + self.borrow_fee_of(to_borrow);
                if !present && self.collateral@.contains_key(ctx.caller) {
                    r == Err::<(), LAssetError>(LAssetError::BorrowWhileDepositingNotAllowed)
                } else if !present && ctx.transferred_value != self.gas_collateral {
                    r == Err::<(), LAssetError>(LAssetError::FirstBorrowRequiresGasCollateral)
                } else if to_return > u128::MAX {
                    r == Err::<(), LAssetError>(LAssetError::BorrowFeeOverflow)
                } else if to_return > self.total_borrowable {
                    r == Err::<(), LAssetError>(LAssetError::BorrowOverflow)
                } else {
                    r == Ok::<(), LAssetError>(())
                }
            }),
    {
        if !self.bonds.contains(&ctx.caller) {
            if self.collateral.contains(&ctx.caller) {
                return Err(LAssetError::BorrowWhileDepositingNotAllowed);
            }
            if ctx.transferred_value != self.gas_collateral {
                return Err(LAssetError::FirstBorrowRequiresGasCollateral);
            }
        }
        let fee = mulw(to_borrow, self.params.borrow_fee).scale_up();
        match to_borrow.checked_add(fee) {
            None => Err(LAssetError::BorrowFeeOverflow),
            Some(to_return) => if to_return > self.total_borrowable {
                Err(LAssetError::BorrowOverflow)
            } else {
                Ok(())
            },
        }
    }

    /// The cash that `account` has put aside for repaying debts.
    pub fn cash_of(&self, account: AccountId) -> (r: u128)
        requires
            self.wf(),
        ensures
            r == Self::value_or_zero(self.cash@, account),
    {
        self.cash.get(&account).unwrap_or(0)
    }

    /// `ctx.caller` puts `extra_cash` underlying tokens aside for repaying
    /// debts, and lets `spender` use its cash in a liquidation. `pulled` is the
    /// outcome of the token transfer of `extra_cash` from the caller to this
    /// pool.
    pub fn deposit_cash(
        &mut self,
        ctx: CallContext,
        spender: AccountId,
        extra_cash: u128,
        pulled: Result<(), PSP22Error>,
    ) -> (r: Result<(), LAssetError>)
        requires
            old(self).wf(),
        ensures
            final(self).wf(),
            r is Err ==> *final(self) == *old(self),
            match pulled {
                Err(e) => r == Err::<(), LAssetError>(LAssetError::DepositCashTransferFailed(e)),
                Ok(_) => {
                    let cash = Self::value_or_zero(old(self).cash@, ctx.caller);
                    if cash + extra_cash > u128::MAX {
                        r == Err::<(), LAssetError>(LAssetError::DepositCashOverflow)
                    } else {
                        &&& r is Ok
                        &&& final(self).cash@ == old(self).cash@.insert(
                            ctx.caller,
                            (cash + extra_cash) as u128,
                        )
                        &&& final(self).whitelist@ == old(self).whitelist@.insert(
                            ctx.caller,
                            spender,
                        )
                        &&& *final(self) == (LAssetContract {
                            cash: final(self).cash,
                            whitelist: final(self).whitelist,
                            ..*old(self)
                        })
                    }
                },
            },
    {
        if let Err(e) = pulled {
            return Err(LAssetError::DepositCashTransferFailed(e));
        }
        let caller = ctx.caller;
        let cash = self.cash.get(&caller).unwrap_or(0);
        let new_cash = match cash.checked_add(extra_cash) {
            Some(x) => x,
            None => {
                return Err(LAssetError::DepositCashOverflow);
            },
        };
        self.cash.insert(caller, new_cash);
        self.whitelist.insert(caller, spender);
        Ok(())
    }

    /// `ctx.caller` takes back all of its cash. `sent` is the outcome of the
    /// token transfer of [`Self::cash_of`] the caller to the caller, which
    /// comes after the cash is cleared: the cash is gone either way, and a
    /// failed transfer is reported.
    pub fn withdraw_cash(&mut self, ctx: CallContext, sent: Result<(), PSP22Error>) -> (r: Result<
        (),
        LAssetError,
    >)
        requires
            old(self).wf(),
        ensures
            final(self).wf(),
            r == match sent {
                Err(e) => Err::<(), LAssetError>(LAssetError::WithdrawCashTransferFailed(e)),
                Ok(_) => Ok::<(), LAssetError>(()),
            },
            final(self).cash@ == old(self).cash@.remove(ctx.caller),
            *final(self) == (LAssetContract { cash: final(self).cash, ..*old(self) }),
    {
        self.cash.remove(&ctx.caller);
        match sent {
            Err(e) => Err(LAssetError::WithdrawCashTransferFailed(e)),
            Ok(_) => Ok(()),
        }
    }

    /// The bonds of a debt of `bonds` that `cash` pays off at time `now`: as
    /// many as the cash is worth (rounded down), at most `bonds`; none when
    /// there is no debt.
    pub open spec fn repay_to_burn(&self, now: u64, cash: u128, bonds: u128) -> int {
        let debt = self.accrued_debt(now) as int;
        let max_to_burn: int = if debt == 0 {
            0
        } else {
            cash * self.total_bonds / debt
        };
        if max_to_burn <= bonds {
            max_to_burn
        } else {
            bonds as int
        }
    }

    /// The debt that burning `to_burn` bonds repays at time `now`: their share
    /// of the debt, rounded up; nothing when there are no bonds.
    pub open spec fn repay_amount(&self, now: u64, to_burn: int) -> int {
        if self.total_bonds == 0 {
            0
        } else {
            ceil_div(
                (to_burn * self.accrued_debt(now)) as nat,
                self.total_bonds as nat,
            ) as int
        }
    }

    /// The pool after `payer` repays with `cash` the debt of `user`, who holds
    /// `bonds` bonds, at time `now`: the payer keeps the cash not spent, the
    /// bonds paid off are burnt (the user's entry goes when none remain), the
    /// repaid debt becomes available liquidity again, and interest is accrued.
    pub open spec fn repaid_pool(
        self,
        now: u64,
        payer: AccountId,
        user: AccountId,
        cash: u128,
        bonds: u128,
        final_pool: Self,
    ) -> bool {
        let to_burn = self.repay_to_burn(now, cash, bonds);
        let repaid = self.repay_amount(now, to_burn);
        let new_bonds = bonds - to_burn;
        &&& final_pool.cash@ == self.cash@.insert(payer, (cash - repaid) as u128)
        &&& final_pool.bonds@ == (if new_bonds == 0 {
            self.bonds@.remove(user)
        } else {
            self.bonds@.insert(user, new_bonds as u128)
        })
        &&& final_pool == (LAssetContract {
            cash: final_pool.cash,
            bonds: final_pool.bonds,
            total_borrowable: (self.total_borrowable + repaid) as u128,
            last_total_liquidity: self.accrued(now).0,
            last_updated_at: self.accrued(now).1,
            total_bonds: (self.total_bonds - to_burn) as u128,
            ..self
        })
    }

    /// Repays with `cash` of `payer` the debt of `user`, who holds `bonds`.
    /// Returns the debt repaid, the new available liquidity, total bonds and
    /// bonds of the user, the accrued liquidity, and the gas refund to the
    /// payer when the user's debt is paid off.
    fn inner_repay(
        &mut self,
        now: u64,
        payer: AccountId,
        user: AccountId,
        cash: u128,
        bonds: u128,
    ) -> (r: ((u128, u128, u128, u128, u128), Option<GasRefund>))
        requires
            old(self).wf(),
            old(self).bonds@.contains_key(user),
            old(self).bonds@[user] == bonds,
        ensures
            final(self).wf(),
            old(self).repaid_pool(now, payer, user, cash, bonds, *final(self)),
            ({
                let to_burn = old(self).repay_to_burn(now, cash, bonds);
                let repaid = old(self).repay_amount(now, to_burn);
                &&& 0 <= to_burn <= bonds
                &&& old(self).total_borrowable + repaid <= old(self).accrued(now).0
                &&& r.0 == (
                    repaid as u128,
                    (old(self).total_borrowable + repaid) as u128,
                    (old(self).total_bonds - to_burn) as u128,
                    (bonds - to_burn) as u128,
                    old(self).accrued(now).0,
                )
                &&& r.1 == (if bonds - to_burn == 0 {
                    Some(GasRefund { to: payer, amount: old(self).gas_collateral })
                } else {
                    None::<GasRefund>
                })
            }),
    {
        let total_borrowable = self.total_borrowable;
        let (total_liquidity, updated_at) = self.inner_accrue(total_borrowable, now);
        let total_debt = crate::wide::sub(total_liquidity, total_borrowable);
        let total_bonds = self.total_bonds;
        proof {
            self.bonds.lemma_value_le_total(user);
        }
        let (to_burn, repaid) = repay_split(cash, bonds, total_bonds, total_debt);
        let new_cash = crate::wide::sub(cash, repaid);
        let new_total_borrowable = crate::wide::add(total_borrowable, repaid);
        let new_bonds = crate::wide::sub(bonds, to_burn);
        let new_total_bonds = crate::wide::sub(total_bonds, to_burn);
        self.cash.insert(payer, new_cash);
        self.total_borrowable = new_total_borrowable;
        self.last_total_liquidity = total_liquidity;
        self.last_updated_at = updated_at;
        self.total_bonds = new_total_bonds;
        let refund = if new_bonds != 0 {
            self.bonds.insert_value(user, new_bonds);
            None
        } else {
            self.bonds.remove_value(&user);
            Some(GasRefund { to: payer, amount: self.gas_collateral })
        };
        ((repaid, new_total_borrowable, new_total_bonds, new_bonds, total_liquidity), refund)
    }

    /// `ctx.caller` adds `extra_cash` to its cash and repays with it the debt
    /// of `user`, as far as it goes. `pulled` is the outcome of the token
    /// transfer of `extra_cash` from the caller to this pool. Returns the gas
    /// refund to the caller when the user's debt is paid off.
    pub fn repay(
        &mut self,
        ctx: CallContext,
        user: AccountId,
        extra_cash: u128,
        pulled: Result<(), PSP22Error>,
    ) -> (r: Result<Option<GasRefund>, LAssetError>)
        requires
            old(self).wf(),
        ensures
            final(self).wf(),
            r is Err ==> *final(self) == *old(self),
            match pulled {
                Err(e) => r == Err::<Option<GasRefund>, LAssetError>(
                    LAssetError::RepayTransferFailed(e),
                ),
                Ok(_) => {
                    let cash = Self::value_or_zero(old(self).cash@, ctx.caller);
                    if cash + extra_cash > u128::MAX {
                        r == Err::<Option<GasRefund>, LAssetError>(LAssetError::RepayCashOverflow)
                    } else if !old(self).bonds@.contains_key(user) {
                        r == Err::<Option<GasRefund>, LAssetError>(
                            LAssetError::RepayWithoutBorrow,
                        )
                    } else {
                        let bonds = old(self).bonds@[user];
                        let to_burn = old(self).repay_to_burn(
                            ctx.now,
                            (cash + extra_cash) as u128,
                            bonds,
                        );
                        &&& old(self).repaid_pool(
                            ctx.now,
                            ctx.caller,
                            user,
                            (cash + extra_cash) as u128,
                            bonds,
                            *final(self),
                        )
                        &&& r == Ok::<Option<GasRefund>, LAssetError>(
                            if bonds - to_burn == 0 {
                                Some(
                                    GasRefund {
                                        to: ctx.caller,
                                        amount: old(self).gas_collateral,
                                    },
                                )
                            } else {
                                None
                            },
                        )
                    }
                },
            },
    {
        if let Err(e) = pulled {
            return Err(LAssetError::RepayTransferFailed(e));
        }
        let caller = ctx.caller;
        let cash = self.cash.get(&caller).unwrap_or(0);
        let new_cash = match cash.checked_add(extra_cash) {
            Some(x) => x,
            None => {
                return Err(LAssetError::RepayCashOverflow);
            },
        };
        let bonds = match self.bonds.get(&user) {
            Some(b) => b,
            None => {
                return Err(LAssetError::RepayWithoutBorrow);
            },
        };
        let (_, refund) = self.inner_repay(ctx.now, caller, user, new_cash, bonds);
        Ok(refund)
    }
}


impl LAssetContract {
    /// The collateral that liquidating `user` takes, given the reports of
    /// the other pools of the ring: the repaid value that it counts
    /// ([`liquidation_repaid`]) quoted in this pool's
    /// token (at `price_scaler / price`, rounded down; `u128::MAX` when it has
    /// no quote), plus the liquidation reward on it, at most the user's
    /// collateral.
    pub open spec fn liquidation_take(&self, user: AccountId, reports: Seq<RepayOrUpdateResult>) -> u128 {
        let repaid_collateral = match quote_down(
            liquidation_repaid(reports),
            self.price_scaler,
            self.price,
        ) {
            Some(q) => q,
            None => u128::MAX,
        };
        let rewards = scale_up(repaid_collateral * self.params.liquidation_reward);
        min_u128(
            sat(repaid_collateral + rewards),
            Self::value_or_zero(self.collateral@, user),
        )
    }

    /// [`Self::liquidation_take`]: the underlying tokens that a liquidation of
    /// `user` pays the liquidator.
    pub fn liquidation_payout(&self, user: AccountId, reports: &Vec<RepayOrUpdateResult>) -> (r: u128)
        requires
            self.wf(),
        ensures
            r == self.liquidation_take(user, reports@),
    {
        let (total_repaid, _, _, _, _) = ring_report_totals(reports);
        let collateral = self.collateral.get(&user).unwrap_or(0);
        let repaid_collateral = mulw(total_repaid, self.price_scaler).div(self.price).unwrap_or(
            u128::MAX,
        );
        let rewards = mulw(repaid_collateral, self.params.liquidation_reward).scale_up();
        let to_take = repaid_collateral.saturating_add(rewards);
        if to_take <= collateral {
            to_take
        } else {
            collateral
        }
    }

    /// `ctx.caller` liquidates `user`: the other pools of the ring repay the
    /// user's debts from the caller's cash there (`reports` are their
    /// answers), and the caller takes [`Self::liquidation_take`] of the user's
    /// collateral here; `sent` is the outcome of that token transfer to the
    /// caller. Allowed only when the user's debt outweighs its collateral at
    /// maintenance values, and the initial debt value still exceeds the
    /// initial collateral value after the repayment. The books are updated,
    /// and the gas refund made, before the transfer: a failed transfer is
    /// reported with them in place.
    pub fn liquidate(
        &mut self,
        ctx: CallContext,
        user: AccountId,
        reports: &Vec<RepayOrUpdateResult>,
        sent: Result<(), PSP22Error>,
    ) -> (r: (Result<(), LAssetError>, Option<GasRefund>))
        requires
            old(self).wf(),
            old(self).is_full_walk(ctx.this, report_nexts(reports@)),
        ensures
            final(self).wf(),
            !old(self).collateral@.contains_key(user) ==> {
                &&& r == (
                    Err::<(), LAssetError>(LAssetError::LiquidateForNothing),
                    None::<GasRefund>,
                )
                &&& *final(self) == *old(self)
            },
            old(self).collateral@.contains_key(user) ==> {
                let collateral = old(self).collateral@[user];
                let to_take = old(self).liquidation_take(user, reports@);
                let new_collateral = (collateral - to_take) as u128;
                let icv = sat(
                    collateral_value(
                        collateral,
                        old(self).price,
                        old(self).price_scaler,
                        old(self).params.initial_haircut,
                    ) + sum_u128(report_icv(reports@)),
                );
                let mcv = sat(
                    collateral_value(
                        new_collateral,
                        old(self).price,
                        old(self).price_scaler,
                        old(self).params.maintenance_haircut,
                    ) + sum_u128(report_mcv(reports@)),
                );
                let idv = sat(sum_u128(report_idv(reports@)));
                let mdv = sat(sum_u128(report_mdv(reports@)));
                if !(mdv > mcv) {
                    &&& r == (Err::<(), LAssetError>(LAssetError::LiquidateTooEarly), None::<GasRefund>)
                    &&& *final(self) == *old(self)
                } else if !(idv > icv) {
                    &&& r == (Err::<(), LAssetError>(LAssetError::LiquidateTooMuch), None::<GasRefund>)
                    &&& *final(self) == *old(self)
                } else {
                    &&& r.0 == match sent {
                        Err(e) => Err::<(), LAssetError>(LAssetError::LiquidateTransferFailed(e)),
                        Ok(_) => Ok::<(), LAssetError>(()),
                    }
                    &&& r.1 == (if new_collateral == 0 {
                        Some(GasRefund { to: ctx.caller, amount: old(self).gas_collateral })
                    } else {
                        None
                    })
                    &&& final(self).collateral@ == (if new_collateral == 0 {
                        old(self).collateral@.remove(user)
                    } else {
                        old(self).collateral@.insert(user, new_collateral)
                    })
                    &&& *final(self) == (LAssetContract {
                        total_collateral: (old(self).total_collateral - to_take) as u128,
                        collateral: final(self).collateral,
                        ..*old(self)
                    })
                }
            },
    {
        let caller = ctx.caller;
        let (_, ring_icv, total_idv, ring_mcv, total_mdv) = ring_report_totals(reports);
        let collateral = match self.collateral.get(&user) {
            Some(c) => c,
            None => {
                return (Err(LAssetError::LiquidateForNothing), None);
            },
        };
        proof {
            self.collateral.lemma_value_le_total(user);
        }
        let to_take = self.liquidation_payout(user, reports);
        let new_collateral = crate::wide::sub(collateral, to_take);
        let new_total_collateral = crate::wide::sub(self.total_collateral, to_take);
        let total_icv = collateral_value_of(
            collateral,
            self.price,
            self.price_scaler,
            self.params.initial_haircut,
        ).saturating_add(ring_icv);
        let total_mcv = collateral_value_of(
            new_collateral,
            self.price,
            self.price_scaler,
            self.params.maintenance_haircut,
        ).saturating_add(ring_mcv);
        proof {
            lemma_sum_u128_nonneg(report_icv(reports@));
            lemma_sum_u128_nonneg(report_mcv(reports@));
        }
        if !(total_mdv > total_mcv) {
            return (Err(LAssetError::LiquidateTooEarly), None);
        }
        if !(total_idv > total_icv) {
            return (Err(LAssetError::LiquidateTooMuch), None);
        }
        self.total_collateral = new_total_collateral;
        let refund = if new_collateral != 0 {
            self.collateral.insert_value(user, new_collateral);
            None
        } else {
            self.collateral.remove_value(&user);
            Some(GasRefund { to: caller, amount: self.gas_collateral })
        };
        match sent {
            Err(e) => (Err(LAssetError::LiquidateTransferFailed(e)), refund),
            Ok(_) => (Ok(()), refund),
        }
    }

    /// The repaying part of [`Self::repay_or_update`].
    #[verifier::spinoff_prover]
    #[verifier::rlimit(40)]
    fn repay_for_liquidation(
        &mut self,
        ctx: CallContext,
        user: AccountId,
        cash_owner: AccountId,
        bonds: u128,
    ) -> (r: (RepayOrUpdateResult, Option<GasRefund>))
        requires
            old(self).wf(),
            old(self).bonds@.contains_key(user),
            old(self).bonds@[user] == bonds,
        ensures
            final(self).wf(),
            ({
                let o = *old(self);
                    let bonds = o.bonds@[user];
                    let cash = Self::value_or_zero(o.cash@, cash_owner);
                    let to_burn = o.repay_to_burn(ctx.now, cash, bonds);
                    let repaid = o.repay_amount(ctx.now, to_burn);
                    let new_borrowable = o.total_borrowable + repaid;
                    let new_total_bonds = o.total_bonds - to_burn;
                    let new_bonds = bonds - to_burn;
                    let total_debt = (o.accrued(ctx.now).0 - new_borrowable) as u128;
                    let debt = bond_debt_up(new_bonds as u128, total_debt, new_total_bonds as u128);
                    let quoted_debt = quote_up(debt, o.price, o.price_scaler);
                    let old_quoted_debt = quote_up((debt + repaid) as u128, o.price, o.price_scaler);
                    let mid = LAssetContract { whitelist: final(self).whitelist, ..o };
                    &&& final(self).whitelist@ == o.whitelist@.remove(ctx.caller)
                    &&& mid.repaid_pool(ctx.now, cash_owner, user, cash, bonds, *final(self))
                    &&& r.0 == (RepayOrUpdateResult {
                        next: o.next,
                        repaid: quote_up(repaid as u128, o.price, o.price_scaler),
                        initial_collateral_value: 0,
                        initial_debt_value: debt_value(old_quoted_debt, o.params.initial_margin),
                        maintenance_collateral_value: 0,
                        maintenance_debt_value: debt_value(
                            quoted_debt,
                            o.params.maintenance_margin,
                        ),
                    })
                    &&& r.1 == (if new_bonds == 0 {
                        Some(GasRefund { to: cash_owner, amount: o.gas_collateral })
                    } else {
                        None::<GasRefund>
                    })
            }),
    {
        let caller = ctx.caller;
        let price = self.price;
        let price_scaler = self.price_scaler;
        let cash = self.cash.get(&cash_owner).unwrap_or(0);
        self.whitelist.remove(&caller);
        let ((repaid, new_borrowable, new_total_bonds, new_bonds, total_liquidity), refund) =
            self.inner_repay(ctx.now, cash_owner, user, cash, bonds);
        let quoted_repaid = quote_up_of(repaid, price, price_scaler);
        let total_debt = crate::wide::sub(total_liquidity, new_borrowable);
        let debt = bond_debt_up_of(new_bonds, total_debt, new_total_bonds);
        let quoted_debt = quote_up_of(debt, price, price_scaler);
        let mdv = debt_value_of(quoted_debt, self.params.maintenance_margin);
        proof {
            if new_bonds != 0 {
                self.bonds.lemma_value_le_total(user);
            }
            if new_total_bonds > 0 {
                lemma_ceil_mul_div_le(total_debt as int, new_bonds as int, new_total_bonds as int);
                assert(new_bonds * total_debt == total_debt * new_bonds) by (nonlinear_arith);
            }
        }
        assert(debt + repaid <= u128::MAX);
        let old_debt = crate::wide::add(debt, repaid);

        let old_quoted_debt = quote_up_of(old_debt, price, price_scaler);
        let idv = debt_value_of(old_quoted_debt, self.params.initial_margin);
        (
            RepayOrUpdateResult {
                next: self.next,
                repaid: quoted_repaid,
                initial_collateral_value: 0,
                initial_debt_value: idv,
                maintenance_collateral_value: 0,
                maintenance_debt_value: mdv,
            },
            refund,
        )
    }

    /// What this pool reports about `user` to the pool `ctx.caller` that is
    /// liquidating it. When `cash_owner` let the caller spend its cash here and
    /// `user` borrows here, the cash repays the user's debt and the report
    /// gives the repaid value and the debt values before (initial) and after
    /// (maintenance) the repayment; the caller's own permission is withdrawn.
    /// Otherwise it gives the values of the user's collateral or debt here.
    pub fn repay_or_update(
        &mut self,
        ctx: CallContext,
        user: AccountId,
        cash_owner: AccountId,
    ) -> (r: (RepayOrUpdateResult, Option<GasRefund>))
        requires
            old(self).wf(),
        ensures
            final(self).wf(),
            ({
                let o = *old(self);
                let repays = o.whitelist@.contains_key(cash_owner) && o.whitelist@[cash_owner]
                    == ctx.caller && o.bonds@.contains_key(user);
                if repays {
                    let bonds = o.bonds@[user];
                    let cash = Self::value_or_zero(o.cash@, cash_owner);
                    let to_burn = o.repay_to_burn(ctx.now, cash, bonds);
                    let repaid = o.repay_amount(ctx.now, to_burn);
                    let new_borrowable = o.total_borrowable + repaid;
                    let new_total_bonds = o.total_bonds - to_burn;
                    let new_bonds = bonds - to_burn;
                    let total_debt = (o.accrued(ctx.now).0 - new_borrowable) as u128;
                    let debt = bond_debt_up(new_bonds as u128, total_debt, new_total_bonds as u128);
                    let quoted_debt = quote_up(debt, o.price, o.price_scaler);
                    let old_quoted_debt = quote_up((debt + repaid) as u128, o.price, o.price_scaler);
                    let mid = LAssetContract { whitelist: final(self).whitelist, ..o };
                    &&& final(self).whitelist@ == o.whitelist@.remove(ctx.caller)
                    &&& mid.repaid_pool(ctx.now, cash_owner, user, cash, bonds, *final(self))
                    &&& r.0 == (RepayOrUpdateResult {
                        next: o.next,
                        repaid: quote_up(repaid as u128, o.price, o.price_scaler),
                        initial_collateral_value: 0,
                        initial_debt_value: debt_value(old_quoted_debt, o.params.initial_margin),
                        maintenance_collateral_value: 0,
                        maintenance_debt_value: debt_value(
                            quoted_debt,
                            o.params.maintenance_margin,
                        ),
                    })
                    &&& r.1 == (if new_bonds == 0 {
                        Some(GasRefund { to: cash_owner, amount: o.gas_collateral })
                    } else {
                        None::<GasRefund>
                    })
                } else if o.collateral@.contains_key(user) {
                    let c = o.collateral@[user];
                    &&& *final(self) == o
                    &&& r.1 is None
                    &&& r.0 == (RepayOrUpdateResult {
                        next: o.next,
                        repaid: 0,
                        initial_collateral_value: collateral_value(
                            c,
                            o.price,
                            o.price_scaler,
                            o.params.initial_haircut,
                        ),
                        initial_debt_value: 0,
                        maintenance_collateral_value: collateral_value(
                            c,
                            o.price,
                            o.price_scaler,
                            o.params.maintenance_haircut,
                        ),
                        maintenance_debt_value: 0,
                    })
                } else if o.bonds@.contains_key(user) {
                    let quoted_debt = quote_up(
                        bond_debt(o.bonds@[user], o.accrued_debt(ctx.now), o.total_bonds),
                        o.price,
                        o.price_scaler,
                    );
                    &&& *final(self) == o.with_accrued(ctx.now)
                    &&& r.1 is None
                    &&& r.0 == (RepayOrUpdateResult {
                        next: o.next,
                        repaid: 0,
                        initial_collateral_value: 0,
                        initial_debt_value: debt_value(quoted_debt, o.params.initial_margin),
                        maintenance_collateral_value: 0,
                        maintenance_debt_value: debt_value(
                            quoted_debt,
                            o.params.maintenance_margin,
                        ),
                    })
                } else {
                    &&& *final(self) == o
                    &&& r.1 is None
                    &&& r.0 == RepayOrUpdateResult {
                        next: o.next,
                        repaid: 0,
                        initial_collateral_value: 0,
                        initial_debt_value: 0,
                        maintenance_collateral_value: 0,
                        maintenance_debt_value: 0,
                    }
                }
            }),
    {
        let caller = ctx.caller;
        let is_repay = match self.whitelist.get(&cash_owner) {
            Some(valid_caller) => if valid_caller == caller {
                self.bonds.get(&user)
            } else {
                None
            },
            None => None,
        };
        if let Some(bonds) = is_repay {
            self.repay_for_liquidation(ctx, user, cash_owner, bonds)
        } else if let Some(c) = self.collateral.get(&user) {
            let icv = collateral_value_of(c, self.price, self.price_scaler, self.params.initial_haircut);
            let mcv = collateral_value_of(
                c,
                self.price,
                self.price_scaler,
                self.params.maintenance_haircut,
            );
            (
                RepayOrUpdateResult {
                    next: self.next,
                    repaid: 0,
                    initial_collateral_value: icv,
                    initial_debt_value: 0,
                    maintenance_collateral_value: mcv,
                    maintenance_debt_value: 0,
                },
                None,
            )
        } else if let Some(b) = self.bonds.get(&user) {
            let total_borrowable = self.total_borrowable;
            let (total_liquidity, updated_at) = self.inner_accrue(total_borrowable, ctx.now);
            self.last_total_liquidity = total_liquidity;
            self.last_updated_at = updated_at;
            let total_debt = crate::wide::sub(total_liquidity, total_borrowable);
            let debt = bond_debt_of(b, total_debt, self.total_bonds);
            let quoted_debt = quote_up_of(debt, self.price, self.price_scaler);
            let idv = debt_value_of(quoted_debt, self.params.initial_margin);
            let mdv = debt_value_of(quoted_debt, self.params.maintenance_margin);
            (
                RepayOrUpdateResult {
                    next: self.next,
                    repaid: 0,
                    initial_collateral_value: 0,
                    initial_debt_value: idv,
                    maintenance_collateral_value: 0,
                    maintenance_debt_value: mdv,
                },
                None,
            )
        } else {
            (RepayOrUpdateResult::new(self.next), None)
        }
    }

    /// What this pool reports about `user` to another pool of the ring at time
    /// `now`: the initial value of the user's collateral here, or of its debt
    /// (after accruing interest), or neither.
    pub fn update(&mut self, now: u64, user: AccountId) -> (r: UpdateResult)
        requires
            old(self).wf(),
        ensures
            final(self).wf(),
            ({
                let o = *old(self);
                if o.collateral@.contains_key(user) {
                    &&& *final(self) == o
                    &&& r == UpdateResult::from_collateral_spec(
                        o.next,
                        collateral_value(
                            o.collateral@[user],
                            o.price,
                            o.price_scaler,
                            o.params.initial_haircut,
                        ),
                    )
                } else if o.bonds@.contains_key(user) {
                    &&& *final(self) == o.with_accrued(now)
                    &&& r == UpdateResult::from_debt_spec(
                        o.next,
                        debt_value(
                            quote_up(
                                bond_debt(o.bonds@[user], o.accrued_debt(now), o.total_bonds),
                                o.price,
                                o.price_scaler,
                            ),
                            o.params.initial_margin,
                        ),
                    )
                } else {
                    &&& *final(self) == o
                    &&& r == UpdateResult::from_debt_spec(o.next, 0)
                }
            }),
    {
        if let Some(c) = self.collateral.get(&user) {
            let icv = collateral_value_of(c, self.price, self.price_scaler, self.params.initial_haircut);
            UpdateResult::from_collateral(self.next, icv)
        } else if let Some(b) = self.bonds.get(&user) {
            let total_borrowable = self.total_borrowable;
            let (total_liquidity, updated_at) = self.inner_accrue(total_borrowable, now);
            self.last_total_liquidity = total_liquidity;
            self.last_updated_at = updated_at;
            let total_debt = crate::wide::sub(total_liquidity, total_borrowable);
            let debt = bond_debt_of(b, total_debt, self.total_bonds);
            let quoted_debt = quote_up_of(debt, self.price, self.price_scaler);
            let idv = debt_value_of(quoted_debt, self.params.initial_margin);
            UpdateResult::from_debt(self.next, idv)
        } else {
            UpdateResult::new(self.next)
        }
    }

    /// The admin `ctx.caller` lends `amount` underlying tokens to `target`
    /// for a flash loan; the pool's liquidity grows by the take-cash fee,
    /// which the loan must pay back. `sent` is the outcome of the token
    /// transfer of `amount` to `target`, which comes after the books are
    /// updated; a failed transfer is reported. Returns the underlying token
    /// and the fee.
    pub fn take_cash(
        &mut self,
        ctx: CallContext,
        amount: u128,
        target: AccountId,
        sent: Result<(), PSP22Error>,
    ) -> (r: Result<(AccountId, u128), TakeCashError>)
        requires
            old(self).wf(),
        ensures
            final(self).wf(),
            ({
                let fee = scale_up(amount * old(self).params.take_cash_fee);
                if ctx.caller != old(self).admin {
                    &&& r == Err::<(AccountId, u128), TakeCashError>(TakeCashError::Unauthorized)
                    &&& *final(self) == *old(self)
                } else if old(self).last_total_liquidity + fee > u128::MAX {
                    &&& r == Err::<(AccountId, u128), TakeCashError>(TakeCashError::Overflow)
                    &&& *final(self) == *old(self)
                } else {
                    &&& r == match sent {
                        Err(e) => Err::<(AccountId, u128), TakeCashError>(TakeCashError::Transfer(e)),
                        Ok(_) => Ok::<(AccountId, u128), TakeCashError>(
                            (old(self).underlying_token, fee),
                        ),
                    }
                    &&& *final(self) == (LAssetContract {
                        last_total_liquidity: (old(self).last_total_liquidity + fee) as u128,
                        total_borrowable: (old(self).total_borrowable + fee) as u128,
                        ..*old(self)
                    })
                }
            }),
    {
        if ctx.caller != self.admin {
            return Err(TakeCashError::Unauthorized);
        }
        let fee = mulw(amount, self.params.take_cash_fee).scale_up();
        let new_total_liquidity = match self.last_total_liquidity.checked_add(fee) {
            Some(x) => x,
            None => {
                return Err(TakeCashError::Overflow);
            },
        };
        let new_total_borrowable = crate::wide::add(self.total_borrowable, fee);
        self.last_total_liquidity = new_total_liquidity;
        self.total_borrowable = new_total_borrowable;
        match sent {
            Err(e) => Err(TakeCashError::Transfer(e)),
            Ok(_) => Ok((self.underlying_token, fee)),
        }
    }

    /// The admin `caller` sets the price of the underlying token to
    /// `price / price_scaler`. Returns the next pool of the ring.
    pub fn set_price(&mut self, caller: AccountId, price: u128, price_scaler: u128) -> (r: Result<
        AccountId,
        LAssetError,
    >)
        requires
            old(self).wf(),
        ensures
            final(self).wf(),
            caller != old(self).admin ==> r == Err::<AccountId, LAssetError>(
                LAssetError::SetPriceUnathorized,
            ) && *final(self) == *old(self),
            caller == old(self).admin ==> r == Ok::<AccountId, LAssetError>(old(self).next)
                && *final(self) == (LAssetContract { price, price_scaler, ..*old(self) }),
    {
        if caller != self.admin {
            return Err(LAssetError::SetPriceUnathorized);
        }
        self.price = price;
        self.price_scaler = price_scaler;
        Ok(self.next)
    }

    /// The admin `caller` sets the pool's parameters. Returns the next pool
    /// of the ring.
    pub fn set_params(&mut self, caller: AccountId, params: AssetParams) -> (r: Result<
        AccountId,
        LAssetError,
    >)
        requires
            old(self).wf(),
        ensures
            final(self).wf(),
            caller != old(self).admin ==> r == Err::<AccountId, LAssetError>(
                LAssetError::SetParamsUnathorized,
            ) && *final(self) == *old(self),
            caller == old(self).admin ==> r == Ok::<AccountId, LAssetError>(old(self).next)
                && *final(self) == (LAssetContract { params, ..*old(self) }),
    {
        if caller != self.admin {
            return Err(LAssetError::SetParamsUnathorized);
        }
        self.params = params;
        Ok(self.next)
    }
}

} // verus!
