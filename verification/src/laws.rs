//! Properties of the contracts that span several calls or hold of every
//! state, each proved over the specifications that the operations' own
//! contracts use.
use vstd::prelude::*;
use crate::account::AccountId;
use crate::errors::FinanceError;
use crate::finance::{FinanceView, lookup, or_zero};
use crate::lasset::{LAssetContract, minted_shares, burned_liquidity};
use crate::token::lowered;
use crate::valuation::{lemma_ceil_le, bond_debt, bond_debt_up, quote_down, collateral_value, debt_value, sat, interest, interest_rate, accrued_liquidity, quote_up, scale_up};
use crate::wide::{limb, ceil_div};

verus! {

/// Accruing interest twice at the same time does no more than accruing it
/// once.
pub proof fn law_accrue_idempotent(c: LAssetContract, now: u64)
    ensures
        c.with_accrued(now).with_accrued(now) == c.with_accrued(now),
{
}

/// Accruing interest never lowers the pool's liquidity.
pub proof fn law_accrue_never_lowers_liquidity(c: LAssetContract, now: u64)
    requires
        c.wf(),
    ensures
        c.with_accrued(now).last_total_liquidity >= c.last_total_liquidity,
{
    if now > c.last_updated_at {
        let debt = c.last_total_liquidity - c.total_borrowable;
        let delta = (now - c.last_updated_at) as nat;
        let rate = interest_rate(c.params, c.last_total_liquidity, c.total_borrowable, delta);
        assert(debt * rate >= 0) by (nonlinear_arith)
            requires
                debt >= 0,
                rate >= 0,
        ;
        assert(debt * rate / (limb() as int) >= 0) by (nonlinear_arith)
            requires
                debt * rate >= 0,
        ;
        assert(interest(debt, rate) >= 0);
    }
}

/// Minting never lowers the value of a share: the liquidity per share after
/// minting for `to_wrap` (paying `fee` on top) is at least what it was,
/// compared by cross-multiplication.
pub proof fn law_mint_keeps_share_value(to_wrap: u128, fee: u128, total_shares: u128, liquidity: u128)
    requires
        total_shares <= liquidity,
    ensures
        (liquidity + to_wrap + fee) * total_shares >= liquidity * (total_shares + minted_shares(
            to_wrap,
            to_wrap + fee,
            total_shares,
            liquidity,
        )),
{
    if liquidity > 0 {
        let m = to_wrap * total_shares / (liquidity as int);
        lemma_floor_times(to_wrap * total_shares, liquidity as int);
        assert((liquidity + to_wrap + fee) * total_shares >= liquidity * (total_shares + m))
            by (nonlinear_arith)
            requires
                liquidity * m <= to_wrap * total_shares,
                fee >= 0,
                total_shares >= 0,
        ;
    }
}

/// Burning never lowers the value of the shares that remain: the liquidity
/// per share after burning `to_burn` shares is at least what it was,
/// compared by cross-multiplication.
pub proof fn law_burn_keeps_share_value(to_burn: u128, total_shares: u128, liquidity: u128)
    requires
        to_burn <= total_shares,
        total_shares <= liquidity,
    ensures
        (liquidity - burned_liquidity(to_burn, total_shares, liquidity)) * total_shares >= liquidity
            * (total_shares - to_burn),
{
    if total_shares > 0 {
        let p = to_burn * liquidity / (total_shares as int);
        lemma_floor_times(to_burn * liquidity, total_shares as int);
        assert((liquidity - p) * total_shares >= liquidity * (total_shares - to_burn))
            by (nonlinear_arith)
            requires
                total_shares * p <= to_burn * liquidity,
        ;
    }
}

/// Minting for `to_wrap` (paying `fee` on top) and burning the minted shares
/// right away never pays out more than was paid in.
pub proof fn law_mint_then_burn_no_profit(to_wrap: u128, fee: u128, total_shares: u128, liquidity: u128)
    requires
        total_shares <= liquidity,
        liquidity + to_wrap + fee <= u128::MAX,
    ensures
        ({
            let paid = to_wrap + fee;
            let m = minted_shares(to_wrap, paid, total_shares, liquidity);
            burned_liquidity(m as u128, (total_shares + m) as u128, (liquidity + paid) as u128) <= paid
        }),
{
    let paid = to_wrap + fee;
    let m = minted_shares(to_wrap, paid, total_shares, liquidity);
    if liquidity > 0 {
        lemma_floor_times(to_wrap * total_shares, liquidity as int);
        lemma_floor_nonneg(to_wrap * total_shares, liquidity as int);
        assert(m <= to_wrap) by (nonlinear_arith)
            requires
                liquidity * m <= to_wrap * total_shares,
                total_shares <= liquidity,
                liquidity > 0,
                m >= 0,
        ;
        if total_shares + m > 0 {
            assert(m * (liquidity + paid) <= paid * (total_shares + m)) by (nonlinear_arith)
                requires
                    liquidity * m <= to_wrap * total_shares,
                    to_wrap <= paid,
                    m >= 0,
                    total_shares >= 0,
            ;
            lemma_floor_le(m * (liquidity + paid), paid, total_shares + m);
        }
    } else {
        if paid > 0 {
            assert(paid * paid / (paid as int) == paid) by (nonlinear_arith)
                requires
                    paid > 0,
            ;
        }
    }
}

/// `d * (x / d) <= x` for a positive `d`.
proof fn lemma_floor_times(x: int, d: int)
    requires
        d > 0,
    ensures
        d * (x / d) <= x,
{
    vstd::arithmetic::div_mod::lemma_fundamental_div_mod(x, d);
    vstd::arithmetic::div_mod::lemma_mod_bound(x, d);
}

/// `x / d >= 0` for `x >= 0` and a positive `d`.
proof fn lemma_floor_nonneg(x: int, d: int)
    requires
        x >= 0,
        d > 0,
    ensures
        x / d >= 0,
{
    vstd::arithmetic::div_mod::lemma_div_pos_is_pos(x, d);
}

/// `x / d <= q` when `x <= q * d` for a positive `d`.
proof fn lemma_floor_le(x: int, q: int, d: int)
    requires
        d > 0,
        x <= q * d,
    ensures
        x / d <= q,
{
    vstd::arithmetic::div_mod::lemma_fundamental_div_mod(x, d);
    vstd::arithmetic::div_mod::lemma_mod_bound(x, d);
    assert(x / d <= q) by (nonlinear_arith)
        requires
            x == d * (x / d) + x % d,
            x % d >= 0,
            x <= q * d,
            d > 0,
    ;
}

/// Sending shares to another holder and the holder sending them back
/// leaves every balance as it was.
pub proof fn law_transfer_back_restores(
    shares: Map<AccountId, u128>,
    from: AccountId,
    to: AccountId,
    value: u128,
)
    requires
        from != to,
        value <= LAssetContract::value_or_zero(shares, from),
        LAssetContract::value_or_zero(shares, to) + value <= u128::MAX,
    ensures
        forall|a: AccountId|
            #[trigger] LAssetContract::value_or_zero(
                LAssetContract::moved(LAssetContract::moved(shares, from, to, value), to, from, value),
                a,
            ) == LAssetContract::value_or_zero(shares, a),
{
}

/// Raising an allowance and lowering it by the same amount gives back the
/// allowance, unless the raise saturated.
pub proof fn law_allowance_round_trip(allowance: u128, delta: u128)
    requires
        allowance + delta <= u128::MAX,
    ensures
        lowered(sat(allowance + delta), delta) == allowance,
{
}

/// Once a token is disabled, every deposit of it fails as disabled.
pub proof fn law_disabled_token_refuses_deposits(
    v: FinanceView,
    token: AccountId,
    caller: AccountId,
    user: AccountId,
    amount: u128,
)
    ensures
        (FinanceView { tokens: v.tokens.insert(token, false), ..v }).spec_deposit(
            caller,
            user,
            token,
            amount,
        ) == Err::<crate::finance::Holding, FinanceError>(FinanceError::TokenDisabled),
{
}

/// A token that was never enabled or disabled is not supported: deposits of
/// it fail so.
pub proof fn law_unknown_token_refuses_deposits(
    v: FinanceView,
    token: AccountId,
    caller: AccountId,
    user: AccountId,
    amount: u128,
)
    requires
        !v.tokens.contains_key(token),
    ensures
        v.spec_deposit(caller, user, token, amount) == Err::<crate::finance::Holding, FinanceError>(
            FinanceError::TokenNotSupported,
        ),
{
}

/// Depositing an amount and withdrawing it again at once gives back the
/// user's and the token's balances and the user's total balance and its
/// value, when the user's borrowed value was covered before.
pub proof fn law_deposit_then_withdraw_restores(
    v: FinanceView,
    caller: AccountId,
    user: AccountId,
    token: AccountId,
    amount: u128,
)
    requires
        v.spec_deposit(caller, user, token, amount) is Ok,
        or_zero(lookup(v.user_total_borrowed_value, user)) <= or_zero(
            lookup(v.user_total_balance_value, user),
        ),
    ensures
        ({
            let w = v.with_balance(token, user, v.spec_deposit(caller, user, token, amount)->Ok_0);
            &&& w.spec_withdraw(caller, user, token, amount) is Ok
            &&& {
                let x = w.with_balance(token, user, w.spec_withdraw(caller, user, token, amount)->Ok_0);
                let k = crate::account::TokenAccount { token, user };
                &&& or_zero(lookup(x.user_balances, k)) == or_zero(lookup(v.user_balances, k))
                &&& or_zero(lookup(x.balances, token)) == or_zero(lookup(v.balances, token))
                &&& or_zero(lookup(x.user_total_balance, user)) == or_zero(
                    lookup(v.user_total_balance, user),
                )
                &&& lookup(x.user_total_balance_value, user) == lookup(
                    v.user_total_balance_value,
                    user,
                )
            }
        }),
{
}

/// Borrowing an amount and redeeming it again at once gives back the
/// user's and the token's borrows and the user's total borrow and its value.
pub proof fn law_borrow_then_redeem_restores(
    v: FinanceView,
    caller: AccountId,
    user: AccountId,
    token: AccountId,
    amount: u128,
)
    requires
        v.spec_borrow(caller, user, token, amount) is Ok,
    ensures
        ({
            let w = v.with_borrowed(token, user, v.spec_borrow(caller, user, token, amount)->Ok_0);
            &&& w.spec_redeem(caller, user, token, amount) is Ok
            &&& {
                let x = w.with_borrowed(token, user, w.spec_redeem(caller, user, token, amount)->Ok_0);
                let k = crate::account::TokenAccount { token, user };
                &&& or_zero(lookup(x.user_borrowed, k)) == or_zero(lookup(v.user_borrowed, k))
                &&& or_zero(lookup(x.borrowed, token)) == or_zero(lookup(v.borrowed, token))
                &&& or_zero(lookup(x.user_total_borrowed, user)) == or_zero(
                    lookup(v.user_total_borrowed, user),
                )
                &&& lookup(x.user_total_borrowed_value, user) == lookup(
                    v.user_total_borrowed_value,
                    user,
                )
            }
        }),
{
}

/// A liquidation never takes more collateral than the user has.
pub proof fn law_liquidation_within_collateral(
    c: LAssetContract,
    user: AccountId,
    reports: Seq<crate::structs::RepayOrUpdateResult>,
)
    ensures
        c.liquidation_take(user, reports) <= LAssetContract::value_or_zero(c.collateral@, user),
{
}

/// The rounded-up quotient brackets the exact one: `ceil(n / d) * d` is at
/// least `n` and less than `n + d`.
proof fn lemma_ceil_div_brackets(n: int, d: int)
    requires
        0 <= n,
        d > 0,
    ensures
        ceil_div(n as nat, d as nat) * d >= n,
        ceil_div(n as nat, d as nat) * d < n + d,
        n / d <= ceil_div(n as nat, d as nat) <= n / d + 1,
{
    vstd::arithmetic::div_mod::lemma_fundamental_div_mod(n, d);
    vstd::arithmetic::div_mod::lemma_mod_bound(n, d);
    let q = n / d;
    let r = n % d;
    assert(q >= 0) by (nonlinear_arith)
        requires
            n == d * q + r,
            0 <= r < d,
            0 <= n,
    ;
    if r == 0 {
        assert(q * d == n) by (nonlinear_arith)
            requires
                n == d * q + r,
                r == 0,
        ;
    } else {
        assert((q + 1) * d >= n && (q + 1) * d < n + d) by (nonlinear_arith)
            requires
                n == d * q + r,
                0 < r < d,
        ;
    }
}

/// The quote of a debt rounds up: `quote_up(amount, price, scaler)` is the
/// least multiple count `q` with `q * scaler >= amount * price`, so the
/// quote of `amount` at `price / scaler` is `ceil(amount * price / scaler)`.
/// It is `u128::MAX` when the scaler is zero or the quote rounded down does
/// not fit in 128 bits, and the carry of rounding up wraps to zero just
/// below that.
pub proof fn law_quote_up_is_the_ceiling(amount: u128, price: u128, scaler: u128)
    ensures
        scaler == 0 ==> quote_up(amount, price, scaler) == u128::MAX,
        scaler != 0 && amount * price >= limb() * scaler ==> quote_up(amount, price, scaler)
            == u128::MAX,
        scaler != 0 && amount * price <= (limb() - 1) * scaler ==> {
            &&& quote_up(amount, price, scaler) * scaler >= amount * price
            &&& quote_up(amount, price, scaler) * scaler < amount * price + scaler
        },
        scaler != 0 && (limb() - 1) * scaler < amount * price < limb() * scaler ==> quote_up(
            amount,
            price,
            scaler,
        ) == 0,
{
    if scaler != 0 {
        let n = amount * price;
        let d = scaler as int;
        assert(0 <= n) by (nonlinear_arith)
            requires
                n == amount * price,
                0 <= amount,
                0 <= price,
        ;
        lemma_ceil_div_brackets(n, d);
        vstd::arithmetic::div_mod::lemma_fundamental_div_mod(n, d);
        vstd::arithmetic::div_mod::lemma_mod_bound(n, d);
        let q = n / d;
        if n >= limb() * d {
            assert(q >= limb()) by (nonlinear_arith)
                requires
                    n == d * q + n % d,
                    0 <= n % d < d,
                    n >= limb() * d,
            ;
        } else {
            assert(q < limb()) by (nonlinear_arith)
                requires
                    n == d * q + n % d,
                    0 <= n % d < d,
                    n < limb() * d,
            ;
            let c = ceil_div(n as nat, d as nat) as int;
            if n <= (limb() - 1) * d {
                lemma_ceil_le(n, limb() - 1, d);
                assert(c % (limb() as int) == c);
            } else {
                assert(c == limb()) by (nonlinear_arith)
                    requires
                        c * d >= n,
                        c * d < n + d,
                        n > (limb() - 1) * d,
                        n < limb() * d,
                        d > 0,
                ;
            }
        }
    }
}

/// A dearer token never makes a debt in it worth less: the quote rounded up
/// grows with the price, while it does not reach the top of the 128-bit
/// range.
pub proof fn law_quote_up_grows_with_price(amount: u128, price: u128, dearer: u128, scaler: u128)
    requires
        price <= dearer,
        scaler != 0,
        amount * dearer <= (limb() - 1) * scaler,
    ensures
        quote_up(amount, price, scaler) <= quote_up(amount, dearer, scaler),
{
    assert(amount * price <= amount * dearer) by (nonlinear_arith)
        requires
            price <= dearer,
            0 <= amount,
    ;
    law_quote_up_is_the_ceiling(amount, price, scaler);
    law_quote_up_is_the_ceiling(amount, dearer, scaler);
    let a = quote_up(amount, price, scaler) as int;
    let b = quote_up(amount, dearer, scaler) as int;
    assert(a <= b) by (nonlinear_arith)
        requires
            a * scaler < amount * price + scaler,
            b * scaler >= amount * dearer,
            amount * price <= amount * dearer,
            scaler > 0,
    ;
}

/// The 128-bit fraction `x / 2^128` of a product of two 128-bit numbers,
/// rounded up, never wraps, and it grows with the product.
proof fn lemma_scale_up_grows(x: int, y: int)
    requires
        0 <= x <= y <= u128::MAX * u128::MAX,
    ensures
        scale_up(x) == x / (limb() as int) + (if x == 0 {
            0int
        } else {
            1int
        }),
        scale_up(x) <= scale_up(y),
{
    let l = limb() as int;
    vstd::arithmetic::div_mod::lemma_div_is_ordered(x, y, l);
    vstd::arithmetic::div_mod::lemma_div_is_ordered(y, u128::MAX * u128::MAX, l);
    assert(u128::MAX * u128::MAX < (l - 1) * l) by (nonlinear_arith)
        requires
            l == u128::MAX + 1,
    ;
    vstd::arithmetic::div_mod::lemma_fundamental_div_mod(u128::MAX * u128::MAX, l);
    vstd::arithmetic::div_mod::lemma_mod_bound(u128::MAX * u128::MAX, l);
    let m = (u128::MAX * u128::MAX) / l;
    assert(m <= l - 2) by (nonlinear_arith)
        requires
            u128::MAX * u128::MAX == l * m + (u128::MAX * u128::MAX) % l,
            0 <= (u128::MAX * u128::MAX) % l,
            u128::MAX * u128::MAX < (l - 1) * l,
            l > 0,
    ;
    vstd::arithmetic::div_mod::lemma_div_pos_is_pos(x, l);
    if x != 0 && x / l == y / l {
        assert(y != 0);
    }
}

/// The collateral that a liquidation takes: the repaid value counted,
/// quoted at `price_scaler / price` and rounded down (`q`, `u128::MAX`
/// when there is no such quote), plus the reward on it, rounded up, at most
/// the user's collateral. So when the collateral covers `q` the liquidator
/// gets at least `q`, and the reward only ever adds to it.
pub proof fn law_liquidation_take_adds_the_reward(
    c: LAssetContract,
    user: AccountId,
    reports: Seq<crate::structs::RepayOrUpdateResult>,
)
    ensures
        ({
            let n = crate::lasset::liquidation_repaid(reports) as int;
            let q: int = if c.price == 0 || n * c.price_scaler / (c.price as int) >= limb() {
                u128::MAX as int
            } else {
                n * c.price_scaler / (c.price as int)
            };
            let reward = q * c.params.liquidation_reward / (limb() as int) + (if q
                * c.params.liquidation_reward == 0 {
                0int
            } else {
                1int
            });
            let collateral = LAssetContract::value_or_zero(c.collateral@, user) as int;
            let take = c.liquidation_take(user, reports) as int;
            &&& take <= collateral
            &&& q <= collateral ==> take >= q
            &&& q + reward <= collateral ==> take == q + reward
            &&& q + reward > collateral ==> take == collateral
        }),
{
    let n = crate::lasset::liquidation_repaid(reports) as int;
    let q: int = if c.price == 0 || n * c.price_scaler / (c.price as int) >= limb() {
        u128::MAX as int
    } else {
        n * c.price_scaler / (c.price as int)
    };
    if c.price != 0 {
        assert(0 <= n * c.price_scaler) by (nonlinear_arith)
            requires
                0 <= n,
                0 <= c.price_scaler,
        ;
        vstd::arithmetic::div_mod::lemma_div_pos_is_pos(n * c.price_scaler, c.price as int);
    }
    let r = c.params.liquidation_reward as int;
    assert(0 <= q * r <= u128::MAX * u128::MAX) by (nonlinear_arith)
        requires
            0 <= q <= u128::MAX,
            0 <= r <= u128::MAX,
    ;
    lemma_scale_up_grows(q * r, q * r);
}

/// A larger liquidation reward never makes a liquidation take less.
pub proof fn law_liquidation_reward_never_lowers_the_take(
    c: LAssetContract,
    reward: u128,
    user: AccountId,
    reports: Seq<crate::structs::RepayOrUpdateResult>,
)
    requires
        c.params.liquidation_reward <= reward,
    ensures
        c.liquidation_take(user, reports) <= (LAssetContract {
            params: crate::structs::AssetParams { liquidation_reward: reward, ..c.params },
            ..c
        }).liquidation_take(user, reports),
{
    let n = crate::lasset::liquidation_repaid(reports) as int;
    let q: int = if c.price == 0 || n * c.price_scaler / (c.price as int) >= limb() {
        u128::MAX as int
    } else {
        n * c.price_scaler / (c.price as int)
    };
    if c.price != 0 {
        assert(0 <= n * c.price_scaler) by (nonlinear_arith)
            requires
                0 <= n,
                0 <= c.price_scaler,
        ;
        vstd::arithmetic::div_mod::lemma_div_pos_is_pos(n * c.price_scaler, c.price as int);
    }
    let r = c.params.liquidation_reward as int;
    assert(0 <= q * r <= q * reward <= u128::MAX * u128::MAX) by (nonlinear_arith)
        requires
            0 <= q <= u128::MAX,
            0 <= r <= reward <= u128::MAX,
    ;
    lemma_scale_up_grows(q * r, q * reward);
}

/// A repayment conserves cash: of the `cash` that `payer` repays the debt
/// of `user` with, what repaid the debt becomes available liquidity of the
/// pool again and the rest stays the payer's cash, at most all of it
/// spent; no one else's cash changes.
pub proof fn law_repay_conserves_cash(
    c: LAssetContract,
    now: u64,
    payer: AccountId,
    user: AccountId,
    cash: u128,
    bonds: u128,
    after: LAssetContract,
)
    requires
        c.wf(),
        c.bonds@.contains_key(user),
        c.bonds@[user] == bonds,
        c.repaid_pool(now, payer, user, cash, bonds, after),
    ensures
        after.cash@.contains_key(payer),
        after.total_borrowable >= c.total_borrowable,
        after.cash@[payer] + (after.total_borrowable - c.total_borrowable) == cash,
        after.cash@.remove(payer) == c.cash@.remove(payer),
        ({
            let repaid = after.total_borrowable - c.total_borrowable;
            let burnt = c.total_bonds - after.total_bonds;
            let debt = c.accrued_debt(now) as int;
            &&& 0 <= burnt <= bonds
            &&& LAssetContract::value_or_zero(after.bonds@, user) == bonds - burnt
            &&& after.bonds@.contains_key(user) == (burnt < bonds)
            &&& after.bonds@.remove(user) == c.bonds@.remove(user)
            &&& burnt * debt <= cash * c.total_bonds
            &&& repaid * c.total_bonds >= burnt * debt
        }),
{
    c.bonds.lemma_value_le_total(user);
    law_accrue_never_lowers_liquidity(c, now);
    let debt = c.accrued_debt(now) as int;
    let tb = c.total_bonds as int;
    assert(debt == c.accrued(now).0 - c.total_borrowable);
    crate::valuation::lemma_repay_bounds(cash as int, bonds as int, tb, debt);
    assert(after.cash@.remove(payer) =~= c.cash@.remove(payer));
    assert(after.bonds@.remove(user) =~= c.bonds@.remove(user));
    let to_burn = c.repay_to_burn(now, cash, bonds);
    if debt > 0 {
        let m = cash * tb / debt;
        vstd::arithmetic::div_mod::lemma_fundamental_div_mod(cash * tb, debt);
        vstd::arithmetic::div_mod::lemma_mod_bound(cash * tb, debt);
        assert(m * debt <= cash * tb) by (nonlinear_arith)
            requires
                cash * tb == debt * m + (cash * tb) % debt,
                0 <= (cash * tb) % debt,
        ;
        assert(to_burn * debt <= cash * tb) by (nonlinear_arith)
            requires
                to_burn <= m,
                m * debt <= cash * tb,
                debt > 0,
        ;
    }
    if tb > 0 {
        lemma_ceil_div_brackets(to_burn * debt, tb);
    }
}

/// `a * x / c <= a * y / c` when `x <= y`.
proof fn lemma_scaled_le(a: int, x: int, y: int, c: int)
    requires
        0 <= a,
        0 <= x <= y,
        c > 0,
    ensures
        0 <= a * x / c <= a * y / c,
{
    assert(0 <= a * x <= a * y) by (nonlinear_arith)
        requires
            0 <= a,
            0 <= x <= y,
    ;
    vstd::arithmetic::div_mod::lemma_div_is_ordered(a * x, a * y, c);
    vstd::arithmetic::div_mod::lemma_div_pos_is_pos(a * x, c);
}

/// Lending more of the same liquidity never lowers the interest rate: with
/// `lent_more` of the liquidity available, no more than `borrowable`, the
/// rate is at least the one with `borrowable` available.
pub proof fn law_rate_grows_with_utilization(
    p: crate::structs::AssetParams,
    liquidity: u128,
    borrowable: u128,
    lent_more: u128,
    delta: nat,
)
    requires
        lent_more <= borrowable <= liquidity,
    ensures
        interest_rate(p, liquidity, borrowable, delta) <= interest_rate(p, liquidity, lent_more, delta),
{
    if liquidity != 0 {
        let sm = sat(p.standard_rate * delta) as int;
        let em = sat(p.emergency_rate * delta) as int;
        lemma_scaled_le(sm, liquidity - borrowable, liquidity - lent_more, liquidity as int);
        lemma_scaled_le(em, lent_more as int, borrowable as int, liquidity as int);
    }
}

/// When all of the liquidity is lent, the standard part of the rate is the
/// whole standard rate over `delta` (saturating) on top of the minimum rate.
pub proof fn law_full_utilization_takes_the_whole_standard_rate(
    p: crate::structs::AssetParams,
    liquidity: u128,
    delta: nat,
)
    requires
        liquidity > 0,
    ensures
        interest_rate(p, liquidity, 0, delta) >= sat(
            sat(p.standard_rate * delta) + p.standard_min_rate,
        ),
{
    let sm = sat(p.standard_rate * delta) as int;
    vstd::arithmetic::div_mod::lemma_div_by_multiple(sm, liquidity as int);
}

/// With nothing lent the standard part of the rate is only the minimum rate.
pub proof fn law_no_utilization_takes_the_minimum_standard_rate(
    p: crate::structs::AssetParams,
    liquidity: u128,
    delta: nat,
)
    requires
        liquidity > 0,
        p.emergency_max_rate == 0,
    ensures
        interest_rate(p, liquidity, liquidity, delta) == p.standard_min_rate,
{
    let sm = sat(p.standard_rate * delta) as int;
    assert(sm * 0 == 0);
    vstd::arithmetic::div_mod::lemma_div_pos_is_pos(sat(p.emergency_rate * delta) * liquidity, liquidity as int);
    assert(0 <= sat(p.emergency_rate * delta) * liquidity) by (nonlinear_arith)
        requires
            0 <= sat(p.emergency_rate * delta),
            0 <= liquidity,
    ;
}

/// Lending more of the same liquidity never lowers the liquidity that
/// interest accrues to.
pub proof fn law_accrual_grows_with_utilization(
    p: crate::structs::AssetParams,
    liquidity: u128,
    borrowable: u128,
    lent_more: u128,
    delta: nat,
)
    requires
        lent_more <= borrowable <= liquidity,
    ensures
        accrued_liquidity(p, liquidity, borrowable, delta) <= accrued_liquidity(
            p,
            liquidity,
            lent_more,
            delta,
        ),
{
    law_rate_grows_with_utilization(p, liquidity, borrowable, lent_more, delta);
    let r1 = interest_rate(p, liquidity, borrowable, delta) as int;
    let r2 = interest_rate(p, liquidity, lent_more, delta) as int;
    let d1 = liquidity - borrowable;
    let d2 = liquidity - lent_more;
    assert(0 <= d1 * r1 <= d2 * r2) by (nonlinear_arith)
        requires
            0 <= d1 <= d2,
            0 <= r1 <= r2,
    ;
    vstd::arithmetic::div_mod::lemma_div_is_ordered(d1 * r1, d2 * r2, limb() as int);
}

/// A redeposit moves investments of `token` back to balances only while
/// the token's investments still cover what is borrowed of it: when it
/// succeeds, the token's investments fall by `amount` and stay at least its
/// borrowed amount, which does not change.
pub proof fn law_redeposit_keeps_loans_covered(
    v: FinanceView,
    caller: AccountId,
    user: AccountId,
    token: AccountId,
    amount: u128,
)
    ensures
        v.acted(3, caller, user, token, amount) matches Ok(w) ==> {
            &&& v.invested.contains_key(token)
            &&& w.invested.contains_key(token)
            &&& w.invested[token] + amount == v.invested[token]
            &&& w.borrowed == v.borrowed
            &&& w.invested[token] >= (if w.borrowed.contains_key(token) {
                w.borrowed[token]
            } else {
                0
            })
        },
{
}

/// The quote of collateral rounds down: `quote_down(amount, price, scaler)`
/// is the greatest `q` with `q * scaler <= amount * price`, and there is
/// none when the scaler is zero or that does not fit in 128 bits.
pub proof fn law_quote_down_is_the_floor(amount: u128, price: u128, scaler: u128)
    ensures
        scaler == 0 ==> quote_down(amount, price, scaler) is None,
        scaler != 0 && amount * price >= limb() * scaler ==> quote_down(amount, price, scaler) is None,
        scaler != 0 && amount * price < limb() * scaler ==> (quote_down(amount, price, scaler) matches Some(
            q,
        ) && q * scaler <= amount * price && amount * price < q * scaler + scaler),
{
    if scaler != 0 {
        let n = amount * price;
        let d = scaler as int;
        assert(0 <= n) by (nonlinear_arith)
            requires
                n == amount * price,
                0 <= amount,
                0 <= price,
        ;
        vstd::arithmetic::div_mod::lemma_fundamental_div_mod(n, d);
        vstd::arithmetic::div_mod::lemma_mod_bound(n, d);
        let q = n / d;
        assert(q * d <= n && n < q * d + d) by (nonlinear_arith)
            requires
                n == d * q + n % d,
                0 <= n % d < d,
        ;
        if n >= limb() * d {
            assert(q >= limb()) by (nonlinear_arith)
                requires
                    n == d * q + n % d,
                    0 <= n % d < d,
                    n >= limb() * d,
            ;
        } else {
            assert(0 <= q < limb()) by (nonlinear_arith)
                requires
                    n == d * q + n % d,
                    0 <= n % d < d,
                    0 <= n < limb() * d,
            ;
        }
    }
}

/// Collateral counts in a health check for its quote times the haircut
/// (a 128-bit fraction), rounded down: never more than the quote, more
/// with a larger haircut, and `u128::MAX` when it has no quote.
pub proof fn law_collateral_value_is_the_haircut_quote(
    amount: u128,
    price: u128,
    scaler: u128,
    haircut: u128,
    larger: u128,
)
    requires
        haircut <= larger,
    ensures
        quote_down(amount, price, scaler) is None ==> collateral_value(amount, price, scaler, haircut)
            == u128::MAX,
        quote_down(amount, price, scaler) matches Some(q) ==> {
            let v = collateral_value(amount, price, scaler, haircut) as int;
            &&& v * limb() <= q * haircut
            &&& q * haircut < v * limb() + limb()
            &&& v <= q
        },
        collateral_value(amount, price, scaler, haircut) <= collateral_value(
            amount,
            price,
            scaler,
            larger,
        ),
{
    if let Some(q) = quote_down(amount, price, scaler) {
        let l = limb() as int;
        let x = q * haircut;
        assert(0 <= x <= q * larger) by (nonlinear_arith)
            requires
                x == q * haircut,
                0 <= q,
                0 <= haircut <= larger,
        ;
        crate::valuation::lemma_mul_div_le(q as int, haircut as int, l);
        vstd::arithmetic::div_mod::lemma_fundamental_div_mod(x, l);
        vstd::arithmetic::div_mod::lemma_mod_bound(x, l);
        let v = x / l;
        assert(v * l <= x && x < v * l + l) by (nonlinear_arith)
            requires
                x == l * v + x % l,
                0 <= x % l < l,
        ;
        vstd::arithmetic::div_mod::lemma_div_is_ordered(x, q * larger, l);
        crate::valuation::lemma_mul_div_le(q as int, larger as int, l);
    }
}

/// Debt counts in a health check for at least its quote: the quote plus the
/// margin (a 128-bit fraction) on it, rounded up, saturating; more with a
/// larger margin.
pub proof fn law_debt_value_adds_the_margin(quoted: u128, margin: u128, larger: u128)
    requires
        margin <= larger,
    ensures
        debt_value(quoted, margin) >= quoted,
        debt_value(quoted, margin) <= debt_value(quoted, larger),
        quoted as int * margin != 0 ==> debt_value(quoted, margin) > quoted || debt_value(quoted, margin)
            == u128::MAX,
{
    assert(0 <= quoted * margin <= quoted * larger <= u128::MAX * u128::MAX) by (nonlinear_arith)
        requires
            0 <= quoted <= u128::MAX,
            0 <= margin <= larger <= u128::MAX,
    ;
    lemma_scale_up_grows(quoted * margin, quoted * larger);
}

/// A user's balances, at their value, cover what the user borrowed after
/// every successful borrow (action 4), withdrawal (action 1) or
/// investment (action 2): each is refused when it would leave less.
pub proof fn law_borrowing_stays_covered(
    v: FinanceView,
    action: u8,
    caller: AccountId,
    user: AccountId,
    token: AccountId,
    amount: u128,
)
    requires
        action == 1 || action == 2 || action == 4,
    ensures
        v.acted(action, caller, user, token, amount) matches Ok(w) ==> or_zero(
            lookup(w.user_total_balance_value, user),
        ) >= or_zero(lookup(w.user_total_borrowed_value, user)),
{
}

/// Interest on `debt` at the 128-bit fractional `rate` is charged in whole
/// units, never less than the exact `debt * rate / 2^128`, and at most one
/// unit above it; nothing is charged only when the product is zero.
pub proof fn law_interest_rounds_against_the_borrower(debt: u128, rate: u128)
    ensures
        debt * rate == 0 ==> interest(debt as int, rate) == 0,
        debt * rate != 0 ==> interest(debt as int, rate) * limb() > debt * rate,
        interest(debt as int, rate) * limb() <= debt * rate + limb(),
{
    let x = debt * rate;
    let l = limb() as int;
    assert(0 <= x) by (nonlinear_arith)
        requires
            x == debt * rate,
            0 <= debt,
            0 <= rate,
    ;
    vstd::arithmetic::div_mod::lemma_fundamental_div_mod(x, l);
    vstd::arithmetic::div_mod::lemma_mod_bound(x, l);
    let q = x / l;
    assert(q * l <= x && x < q * l + l) by (nonlinear_arith)
        requires
            x == l * q + x % l,
            0 <= x % l < l,
    ;
    if x == 0 {
        assert(q == 0) by (nonlinear_arith)
            requires
                q * l <= x,
                x < q * l + l,
                x == 0,
                l > 0,
        ;
    }
}

/// The debt owed by `bonds` of `total_bonds` is their share of the total
/// debt rounded up, at most the whole debt, both where the rounding carry
/// wraps and where it is checked.
pub proof fn law_bond_debt_is_the_share_rounded_up(bonds: u128, total_debt: u128, total_bonds: u128)
    requires
        bonds <= total_bonds,
        total_bonds > 0,
    ensures
        bond_debt(bonds, total_debt, total_bonds) == bond_debt_up(bonds, total_debt, total_bonds),
        bond_debt(bonds, total_debt, total_bonds) <= total_debt,
        bond_debt(bonds, total_debt, total_bonds) * total_bonds >= bonds * total_debt,
        bond_debt(bonds, total_debt, total_bonds) * total_bonds < bonds * total_debt + total_bonds,
{
    let n = bonds * total_debt;
    crate::valuation::lemma_ceil_mul_div_le(total_debt as int, bonds as int, total_bonds as int);
    assert(n == total_debt * bonds) by (nonlinear_arith)
        requires
            n == bonds * total_debt,
    ;
    lemma_ceil_div_brackets(n, total_bonds as int);
    let c = ceil_div(n as nat, total_bonds as nat) as int;
    vstd::arithmetic::div_mod::lemma_fundamental_div_mod(n, total_bonds as int);
    vstd::arithmetic::div_mod::lemma_mod_bound(n, total_bonds as int);
    let q = n / (total_bonds as int);
    assert(q % (limb() as int) == q);
    assert(c % (limb() as int) == c);
}

} // verus!
