//! The arithmetic of a lending pool, as mathematical functions: saturating
//! operations, interest accrual, quotes in the reference currency, and the
//! values of collateral and debt that the health checks compare.
use vstd::prelude::*;
use crate::wide::{limb, ceil_div};
use crate::structs::AssetParams;

verus! {

/// `x` clamped to the range of `u128`.
pub open spec fn sat(x: int) -> u128 {
    if x > u128::MAX {
        u128::MAX
    } else if x < 0 {
        0
    } else {
        x as u128
    }
}

/// The larger of two numbers.
pub open spec fn max_u128(a: u128, b: u128) -> u128 {
    if a >= b {
        a
    } else {
        b
    }
}

/// The smaller of two numbers.
pub open spec fn min_u128(a: u128, b: u128) -> u128 {
    if a <= b {
        a
    } else {
        b
    }
}

/// The integer part of `x` read as a 128-bit fraction (`x / 2^128`), plus one
/// when `x` is not zero, taken modulo `2^128`.
pub open spec fn scale_up(x: int) -> u128 {
    ((x / (limb() as int) + (if x == 0 {
        0int
    } else {
        1int
    })) % (limb() as int)) as u128
}

/// Interest rate per unit of time applied over `delta` units, from the
/// utilization of the pool. `debt` is the lent liquidity and `borrowable`
/// the liquidity still available; the rate is the larger of the standard
/// rate (growing with utilization, at least the minimum rate) and the
/// emergency rate (shrinking from its maximum as liquidity is available).
pub open spec fn interest_rate(p: AssetParams, liquidity: u128, borrowable: u128, delta: nat) -> u128 {
    let debt = liquidity - borrowable;
    let standard_matured = sat(p.standard_rate * delta);
    let emergency_matured = sat(p.emergency_rate * delta);
    let standard_scaled: int = if liquidity == 0 {
        0
    } else {
        standard_matured * debt / (liquidity as int)
    };
    let emergency_scaled: int = if liquidity == 0 {
        0
    } else {
        emergency_matured * borrowable / (liquidity as int)
    };
    max_u128(
        sat(standard_scaled + p.standard_min_rate),
        sat(p.emergency_max_rate - emergency_scaled),
    )
}

/// Interest owed on `debt` at a 128-bit fractional `rate`: the integer part of
/// `debt * rate / 2^128`, plus one when the product is not zero.
pub open spec fn interest(debt: int, rate: u128) -> int {
    debt * rate / (limb() as int) + (if debt * rate == 0 {
        0int
    } else {
        1int
    })
}

/// Total liquidity after `delta` units of time: interest on the debt is
/// added, saturating at `u128::MAX`.
pub open spec fn accrued_liquidity(p: AssetParams, liquidity: u128, borrowable: u128, delta: nat) -> u128 {
    sat(
        liquidity + interest(
            liquidity - borrowable,
            interest_rate(p, liquidity, borrowable, delta),
        ),
    )
}

/// Value of `amount` at `price / scaler`, rounded down; `None` when the scaler
/// is zero or the value does not fit in 128 bits.
pub open spec fn quote_down(amount: u128, price: u128, scaler: u128) -> Option<u128> {
    if scaler == 0 || amount * price / (scaler as int) >= (limb() as int) {
        None
    } else {
        Some((amount * price / (scaler as int)) as u128)
    }
}

/// Value of `amount` at `price / scaler`, rounded up with a wrapping carry
/// (see [`crate::wide::Wide::ceil_up`]); `u128::MAX` when the scaler is zero
/// or the value rounded down does not fit in 128 bits.
pub open spec fn quote_up(amount: u128, price: u128, scaler: u128) -> u128 {
    if scaler == 0 || amount * price / (scaler as int) >= limb() {
        u128::MAX
    } else {
        (ceil_div((amount * price) as nat, scaler as nat) % limb()) as u128
    }
}

/// Value of collateral counted by a health check: its quote, rounded down,
/// times the 128-bit fractional `haircut`; `u128::MAX` when the quote does
/// not exist.
pub open spec fn collateral_value(amount: u128, price: u128, scaler: u128, haircut: u128) -> u128 {
    match quote_down(amount, price, scaler) {
        Some(q) => (q * haircut / (limb() as int)) as u128,
        None => u128::MAX,
    }
}

/// Value of debt counted by a health check: the quoted debt plus the
/// 128-bit fractional `margin` of it (rounded up), saturating.
pub open spec fn debt_value(quoted: u128, margin: u128) -> u128 {
    sat(scale_up(quoted * margin) + quoted)
}

/// The share of the total debt `total_debt` owed by `bonds` of `total_bonds`,
/// rounded up (the 128-bit low part, plus the rounding carry with wrapping);
/// the whole debt when there are no bonds.
pub open spec fn bond_debt(bonds: u128, total_debt: u128, total_bonds: u128) -> u128 {
    if total_bonds == 0 {
        total_debt
    } else {
        (((bonds * total_debt / (total_bonds as int)) % (limb() as int) + (if (bonds
            * total_debt) % (total_bonds as int) == 0 {
            0int
        } else {
            1int
        })) % (limb() as int)) as u128
    }
}

/// The share of `total_debt` owed by `bonds` of `total_bonds`, rounded up
/// with a wrapping carry (see [`crate::wide::Wide::ceil_up`]); the whole
/// debt when there are no bonds or the share rounded down does not fit in
/// 128 bits.
pub open spec fn bond_debt_up(bonds: u128, total_debt: u128, total_bonds: u128) -> u128 {
    if total_bonds == 0 || bonds * total_debt / (total_bonds as int) >= limb() {
        total_debt
    } else {
        (ceil_div((bonds * total_debt) as nat, total_bonds as nat) % limb()) as u128
    }
}

/// Sum of a sequence of numbers.
pub open spec fn sum_u128(s: Seq<u128>) -> int
    decreases s.len(),
{
    if s.len() == 0 {
        0
    } else {
        sum_u128(s.drop_last()) + s.last()
    }
}

/// A sum of numbers is not negative.
pub proof fn lemma_sum_u128_nonneg(s: Seq<u128>)
    ensures
        sum_u128(s) >= 0,
    decreases s.len(),
{
    if s.len() > 0 {
        lemma_sum_u128_nonneg(s.drop_last());
    }
}

/// `a * b / c <= a` when `b <= c`.
pub proof fn lemma_mul_div_le(a: int, b: int, c: int)
    requires
        0 <= a,
        0 <= b <= c,
        c > 0,
    ensures
        a * b / c <= a,
        0 <= a * b / c,
{
    assert(a * b <= a * c) by (nonlinear_arith)
        requires
            0 <= a,
            b <= c,
    ;
    assert(0 <= a * b) by (nonlinear_arith)
        requires
            0 <= a,
            0 <= b,
    ;
    vstd::arithmetic::div_mod::lemma_div_is_ordered(a * b, a * c, c);
    vstd::arithmetic::div_mod::lemma_div_by_multiple(a, c);
    vstd::arithmetic::div_mod::lemma_div_pos_is_pos(a * b, c);
}

/// `ceil(n / d) <= k` when `n <= k * d`.
pub proof fn lemma_ceil_le(n: int, k: int, d: int)
    requires
        0 <= n <= k * d,
        d > 0,
    ensures
        ceil_div(n as nat, d as nat) <= k,
        n / d <= k,
{
    vstd::arithmetic::div_mod::lemma_fundamental_div_mod(n, d);
    vstd::arithmetic::div_mod::lemma_mod_bound(n, d);
    let q = n / d;
    let r = n % d;
    assert(q <= k) by (nonlinear_arith)
        requires
            n == d * q + r,
            0 <= r < d,
            n <= k * d,
            d > 0,
    ;
    if q == k {
        assert(r == 0) by (nonlinear_arith)
            requires
                n == d * q + r,
                0 <= r < d,
                n <= k * d,
                q == k,
        ;
    }
}

/// Repaying with `cash` when `bonds <= total_bonds <= debt`: the bonds burnt
/// are at most the cash's worth of bonds and at most `bonds`, the debt repaid
/// (their share of the debt, rounded up) is at most the cash and the debt, and
/// the remaining bonds stay within the remaining debt.
pub proof fn lemma_repay_bounds(cash: int, bonds: int, total_bonds: int, debt: int)
    requires
        0 <= cash,
        0 <= bonds <= total_bonds <= debt,
    ensures
        ({
            let max_to_burn = if debt == 0 {
                0
            } else {
                cash * total_bonds / debt
            };
            let to_burn = if max_to_burn <= bonds {
                max_to_burn
            } else {
                bonds
            };
            let repaid: int = if total_bonds == 0 {
                0
            } else {
                ceil_div((to_burn * debt) as nat, total_bonds as nat) as int
            };
            &&& 0 <= max_to_burn <= cash
            &&& 0 <= to_burn <= bonds
            &&& 0 <= to_burn * debt
            &&& total_bonds > 0 ==> to_burn * debt / total_bonds <= debt
            &&& 0 <= repaid <= cash
            &&& repaid <= debt
            &&& total_bonds - to_burn <= debt - repaid
        }),
{
    let max_to_burn = if debt == 0 {
        0
    } else {
        cash * total_bonds / debt
    };
    let to_burn = if max_to_burn <= bonds {
        max_to_burn
    } else {
        bonds
    };
    if debt > 0 {
        lemma_mul_div_le(cash, total_bonds, debt);
        vstd::arithmetic::div_mod::lemma_fundamental_div_mod(cash * total_bonds, debt);
        vstd::arithmetic::div_mod::lemma_mod_bound(cash * total_bonds, debt);
        assert(to_burn * debt <= cash * total_bonds) by (nonlinear_arith)
            requires
                0 <= to_burn <= max_to_burn,
                max_to_burn == cash * total_bonds / debt,
                cash * total_bonds == debt * (cash * total_bonds / debt) + (cash * total_bonds)
                    % debt,
                0 <= (cash * total_bonds) % debt,
                debt > 0,
        ;
    }
    assert(0 <= to_burn * debt) by (nonlinear_arith)
        requires
            0 <= to_burn,
            0 <= debt,
    ;
    if total_bonds > 0 {
        assert(to_burn * debt <= debt * total_bonds) by (nonlinear_arith)
            requires
                0 <= to_burn <= total_bonds,
                0 <= debt,
        ;
        lemma_ceil_le(to_burn * debt, debt, total_bonds);
        lemma_ceil_le(to_burn * debt, cash, total_bonds);
        assert(to_burn * debt <= (debt - total_bonds + to_burn) * total_bonds) by (nonlinear_arith)
            requires
                0 <= to_burn <= total_bonds,
                total_bonds <= debt,
        ;
        lemma_ceil_le(to_burn * debt, debt - total_bonds + to_burn, total_bonds);
    }
}

/// Borrowing `r` more when `total_bonds <= debt`: the bonds minted (the
/// borrowed amount's share of the bonds per unit of debt, rounded up; `r`
/// when there is no debt) are at most `r`, and keep bonds within the debt.
pub proof fn lemma_borrow_bounds(r: int, total_bonds: int, debt: int)
    requires
        0 <= r,
        0 <= total_bonds <= debt,
    ensures
        ({
            let to_mint: int = if debt == 0 {
                r
            } else {
                ceil_div((r * total_bonds) as nat, debt as nat) as int
            };
            &&& 0 <= to_mint <= r
            &&& total_bonds + to_mint <= debt + r
            &&& 0 <= r * total_bonds
            &&& debt > 0 ==> r * total_bonds / debt <= r
        }),
{
    if debt > 0 {
        lemma_ceil_mul_div_le(r, total_bonds, debt);
    }
    assert(0 <= r * total_bonds) by (nonlinear_arith)
        requires
            0 <= r,
            0 <= total_bonds,
    ;
}

/// The rounded-up share `ceil(a * b / c)` is at most `a` when `b <= c`.
pub proof fn lemma_ceil_mul_div_le(a: int, b: int, c: int)
    requires
        0 <= a,
        0 <= b <= c,
        c > 0,
    ensures
        ceil_div((a * b) as nat, c as nat) <= a,
        a * b / c <= a,
        0 <= a * b,
{
    lemma_mul_div_le(a, b, c);
    assert(0 <= a * b) by (nonlinear_arith)
        requires
            0 <= a,
            0 <= b,
    ;
    if (a * b) % c != 0 {
        vstd::arithmetic::div_mod::lemma_mod_multiples_basic(a, c);
        assert(a * b <= a * c) by (nonlinear_arith)
            requires
                0 <= a,
                b <= c,
        ;
        assert(a * b != a * c);
        vstd::arithmetic::div_mod::lemma_fundamental_div_mod(a * b, c);
        assert((a * b) / c < a) by (nonlinear_arith)
            requires
                a * b < a * c,
                a * b == c * ((a * b) / c) + (a * b) % c,
                (a * b) % c > 0,
                c > 0,
        ;
    }
}

} // verus!
