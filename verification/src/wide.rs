//! Fixed-point helpers on 256-bit intermediate products.
//!
//! Every rate, haircut, margin and fee of the pools is a 128-bit fraction:
//! a value `x` stands for `x / 2^128`. Products of two 128-bit numbers are
//! kept exactly in a [`Wide`] and then divided or scaled back to 128 bits.
use vstd::prelude::*;
use primitive_types::{U128, U256};

verus! {

/// `2^128`, the unit of the 128-bit fractions.
pub open spec fn limb() -> nat {
    0x1_0000_0000_0000_0000_0000_0000_0000_0000nat
}

/// Quotient of `n / d` rounded up.
pub open spec fn ceil_div(n: nat, d: nat) -> nat
    recommends
        d > 0,
{
    if n % d == 0 {
        n / d
    } else {
        n / d + 1
    }
}

/// A 256-bit unsigned integer, split into its high and low 128-bit halves.
#[derive(Clone, Copy, Debug)]
pub struct Wide {
    pub hi: u128,
    pub lo: u128,
}

impl Wide {
    /// The number this value stands for.
    pub open spec fn value(self) -> nat {
        (self.hi * limb() + self.lo) as nat
    }
}

/// The halves of a number below `2^256` are its quotient and remainder by `2^128`.
pub proof fn lemma_halves(w: Wide)
    ensures
        w.value() / limb() == w.hi,
        w.value() % limb() == w.lo,
        w.value() < limb() * limb(),
        w.value() < limb() <==> w.hi == 0,
{
    vstd::arithmetic::div_mod::lemma_fundamental_div_mod_converse(
        w.value() as int,
        limb() as int,
        w.hi as int,
        w.lo as int,
    );
    assert(w.hi * limb() + w.lo < limb() * limb()) by (nonlinear_arith)
        requires
            w.hi < limb(),
            w.lo < limb(),
    ;
    assert(w.hi > 0 ==> w.hi * limb() >= limb()) by (nonlinear_arith);
}

/// Full product of two 128-bit numbers, by `primitive_types::U128::full_mul`.
///
/// The crate documents `full_mul` as the product into a 256-bit integer where
/// "overflow is not possible"; the contract states exactly that.
#[verifier::external_body]
fn full_mul(a: u128, b: u128) -> (w: Wide)
    ensures
        w.value() == a * b,
{
    let r: U256 = U128::from(a).full_mul(U128::from(b));
    Wide { hi: (r >> 128).low_u128(), lo: r.low_u128() }
}

/// Quotient and remainder of a 256-bit number by a non-zero 128-bit divisor,
/// by `primitive_types::U256::div_mod`.
///
/// The crate documents `div_mod` as returning `(self / other, self % other)`
/// and panicking when `other` is zero, which `requires` excludes.
#[verifier::external_body]
fn div_mod(n: Wide, d: u128) -> (res: (Wide, Wide))
    requires
        d != 0,
    ensures
        res.0.value() == n.value() / (d as nat),
        res.1.value() == n.value() % (d as nat),
{
    let (q, r) = ((U256::from(n.hi) << 128) | U256::from(n.lo)).div_mod(U256::from(d));
    (
        Wide { hi: (q >> 128).low_u128(), lo: q.low_u128() },
        Wide { hi: (r >> 128).low_u128(), lo: r.low_u128() },
    )
}

/// Checked quotient of a 256-bit number by a 128-bit divisor,
/// by `primitive_types::U256::checked_div`.
///
/// The crate documents `checked_div` as returning `None` when the divisor is
/// zero and the quotient otherwise.
#[verifier::external_body]
fn checked_div(n: Wide, d: u128) -> (res: Option<Wide>)
    ensures
        d == 0 ==> res is None,
        d != 0 ==> res is Some,
        d != 0 ==> res.unwrap().value() == n.value() / (d as nat),
{
    let r = ((U256::from(n.hi) << 128) | U256::from(n.lo)).checked_div(U256::from(d));
    r.map(|q| Wide { hi: (q >> 128).low_u128(), lo: q.low_u128() })
}

/// Exact 256-bit product of two 128-bit numbers.
pub fn mulw(a: u128, b: u128) -> (w: Wide)
    ensures
        w.value() == a * b,
{
    full_mul(a, b)
}

/// Wrapping addition: `(a + b) mod 2^128`.
pub fn add(a: u128, b: u128) -> (r: u128)
    ensures
        r == (a + b) % (limb() as int),
        a + b <= u128::MAX ==> r == a + b,
{
    a.wrapping_add(b)
}

/// Wrapping subtraction: `(a - b) mod 2^128`.
pub fn sub(a: u128, b: u128) -> (r: u128)
    ensures
        r == (a - b) % (limb() as int),
        b <= a ==> r == a - b,
{
    a.wrapping_sub(b)
}

/// `Ok(())` when `cond` holds, else `Err(e)`.
pub fn require<E>(cond: bool, e: E) -> (r: Result<(), E>)
    ensures
        cond ==> r is Ok,
        !cond ==> r == Err::<(), E>(e),
{
    if cond {
        Ok(())
    } else {
        Err(e)
    }
}

impl Wide {
    /// Quotient by `b`, keeping its low 128 bits; `None` when `b` is zero.
    pub fn div_rate(&self, b: u128) -> (r: Option<u128>)
        ensures
            b == 0 ==> r is None,
            b != 0 ==> r == Some(((self.value() / (b as nat)) % limb()) as u128),
    {
        match checked_div(*self, b) {
            Some(q) => {
                proof {
                    lemma_halves(q);
                }
                Some(q.lo)
            },
            None => None,
        }
    }

    /// Quotient by `b` when it fits in 128 bits; `None` when `b` is zero or
    /// the quotient is `2^128` or more.
    pub fn div(&self, b: u128) -> (r: Option<u128>)
        ensures
            b == 0 ==> r is None,
            b != 0 && self.value() / (b as nat) < limb() ==> r == Some(
                (self.value() / (b as nat)) as u128,
            ),
            b != 0 && self.value() / (b as nat) >= limb() ==> r is None,
    {
        match checked_div(*self, b) {
            Some(q) => {
                proof {
                    lemma_halves(q);
                }
                if q.hi == 0 {
                    Some(q.lo)
                } else {
                    None
                }
            },
            None => None,
        }
    }

    /// Quotient by `b` rounded up, keeping its low 128 bits and adding the
    /// carry with wrapping; `None` when `b` is zero.
    pub fn ceil_rate(&self, b: u128) -> (r: Option<u128>)
        ensures
            b == 0 ==> r is None,
            b != 0 ==> r == Some(
                ((((self.value() / (b as nat)) % limb()) + (if self.value() % (b as nat) == 0 {
                    0nat
                } else {
                    1nat
                })) % limb()) as u128,
            ),
    {
        if b == 0 {
            None
        } else {
            let (q, rem) = div_mod(*self, b);
            proof {
                lemma_halves(q);
                lemma_halves(rem);
            }
            let c: u128 = if rem.hi == 0 && rem.lo == 0 {
                0
            } else {
                1
            };
            Some(self::add(q.lo, c))
        }
    }

    /// Quotient by `b` rounded up, when the quotient rounded down fits in
    /// 128 bits: the rounding carry is added with wrapping, so that a
    /// quotient of `u128::MAX` with a remainder gives zero. `None` when `b` is
    /// zero or the quotient rounded down does not fit.
    pub fn ceil_up(&self, b: u128) -> (r: Option<u128>)
        ensures
            b == 0 ==> r is None,
            b != 0 && self.value() / (b as nat) >= limb() ==> r is None,
            b != 0 && self.value() / (b as nat) < limb() ==> r == Some(
                (ceil_div(self.value(), b as nat) % limb()) as u128,
            ),
    {
        if b == 0 {
            return None;
        }
        let (q, rem) = div_mod(*self, b);
        proof {
            lemma_halves(q);
            lemma_halves(rem);
        }
        if q.hi != 0 {
            None
        } else {
            let c: u128 = if rem.hi == 0 && rem.lo == 0 {
                0
            } else {
                1
            };
            Some(self::add(q.lo, c))
        }
    }

    /// Quotient by `b` rounded up, when it fits in 128 bits; `None` when `b`
    /// is zero or the rounded-up quotient is `2^128` or more.
    pub fn ceil_fit(&self, b: u128) -> (r: Option<u128>)
        ensures
            b == 0 ==> r is None,
            b != 0 && ceil_div(self.value(), b as nat) < limb() ==> r == Some(
                ceil_div(self.value(), b as nat) as u128,
            ),
            b != 0 && ceil_div(self.value(), b as nat) >= limb() ==> r is None,
    {
        if b == 0 {
            return None;
        }
        let (q, rem) = div_mod(*self, b);
        proof {
            lemma_halves(q);
            lemma_halves(rem);
        }
        if q.hi != 0 {
            None
        } else if rem.hi == 0 && rem.lo == 0 {
            Some(q.lo)
        } else if q.lo == u128::MAX {
            None
        } else {
            Some(q.lo + 1)
        }
    }

    /// The integer part of this number read as a 128-bit fraction:
    /// `value / 2^128`.
    pub fn scale(&self) -> (r: u128)
        ensures
            r == self.value() / limb(),
    {
        proof {
            lemma_halves(*self);
        }
        self.hi
    }

    /// This number read as a 128-bit fraction, rounded up: `value / 2^128`
    /// plus one when the number is not zero (with wrapping).
    pub fn scale_up(&self) -> (r: u128)
        ensures
            r == ((self.value() / limb() + (if self.value() == 0 {
                0nat
            } else {
                1nat
            })) % limb()),
    {
        proof {
            lemma_halves(*self);
        }
        let c: u128 = if self.hi == 0 && self.lo == 0 {
            0
        } else {
            1
        };
        self::add(self.scale(), c)
    }
}

} // verus!
