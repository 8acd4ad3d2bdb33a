//! Account identifiers: 32-byte addresses, held as two 128-bit halves.
use vstd::prelude::*;
use crate::map::MapKey;

verus! {

/// The number that a big-endian byte string stands for.
pub open spec fn be_value(s: Seq<u8>) -> nat
    decreases s.len(),
{
    if s.len() == 0 {
        0
    } else {
        be_value(s.drop_last()) * 256 + (s.last() as nat)
    }
}

/// `256^n`.
pub open spec fn pow256(n: nat) -> nat
    decreases n,
{
    if n == 0 {
        1
    } else {
        256 * pow256((n - 1) as nat)
    }
}

proof fn lemma_be_value_bound(s: Seq<u8>)
    ensures
        be_value(s) < pow256(s.len()),
    decreases s.len(),
{
    if s.len() > 0 {
        lemma_be_value_bound(s.drop_last());
        let a = be_value(s.drop_last());
        let p = pow256(s.drop_last().len());
        assert(a * 256 + s.last() < 256 * p) by (nonlinear_arith)
            requires
                a < p,
                s.last() < 256,
        ;
    }
}

proof fn lemma_pow256_16()
    ensures
        pow256(16) == 0x1_0000_0000_0000_0000_0000_0000_0000_0000nat,
{
    reveal_with_fuel(pow256, 17);
}

/// A 32-byte account address: `hi` holds the first sixteen bytes and `lo`
/// the last sixteen, each read big-endian.
#[derive(Clone, Copy, Debug, PartialEq, Eq, Structural, Hash)]
pub struct AccountId {
    pub hi: u128,
    pub lo: u128,
}

impl MapKey for AccountId {
    fn same(&self, other: &Self) -> (r: bool) {
        self.hi == other.hi && self.lo == other.lo
    }
}

fn read_half(bytes: &[u8; 32], start: usize) -> (r: u128)
    requires
        start == 0 || start == 16,
    ensures
        r == be_value(bytes@.subrange(start as int, start + 16)),
{
    let mut acc: u128 = 0;
    let mut i: usize = start;
    while i < start + 16
        invariant
            start == 0 || start == 16,
            start <= i <= start + 16,
            bytes@.len() == 32,
            acc == be_value(bytes@.subrange(start as int, i as int)),
        decreases start + 16 - i,
    {
        let ghost s = bytes@.subrange(start as int, i as int);
        let ghost t = bytes@.subrange(start as int, i + 1);
        proof {
            assert(t.drop_last() =~= s);
            lemma_be_value_bound(s);
            lemma_pow256_16();
            assert(pow256(s.len()) * 256 == pow256(s.len() + 1));
            lemma_pow256_mono(s.len() + 1, 16);
        }
        acc = acc * 256 + bytes[i] as u128;
        i = i + 1;
    }
    acc
}

proof fn lemma_pow256_mono(a: nat, b: nat)
    requires
        a <= b,
    ensures
        pow256(a) <= pow256(b),
    decreases b,
{
    if a < b {
        lemma_pow256_mono(a, (b - 1) as nat);
    }
}

impl AccountId {
    /// The account with the given 32-byte address.
    pub fn from_bytes(bytes: [u8; 32]) -> (a: AccountId)
        ensures
            a.hi == be_value(bytes@.subrange(0, 16)),
            a.lo == be_value(bytes@.subrange(16, 32)),
    {
        let hi = read_half(&bytes, 0);
        let lo = read_half(&bytes, 16);
        AccountId { hi, lo }
    }
}

/// A pair of accounts, the key of allowance tables: `owner` lets `spender`
/// move some of its balance.
#[derive(Clone, Copy, Debug, PartialEq, Eq, Structural)]
pub struct AccountPair {
    pub owner: AccountId,
    pub spender: AccountId,
}

impl MapKey for AccountPair {
    fn same(&self, other: &Self) -> (r: bool) {
        self.owner.same(&other.owner) && self.spender.same(&other.spender)
    }
}

/// A token and an account, the key of per-user, per-token tables.
#[derive(Clone, Copy, Debug, PartialEq, Eq, Structural)]
pub struct TokenAccount {
    pub token: AccountId,
    pub user: AccountId,
}

impl MapKey for TokenAccount {
    fn same(&self, other: &Self) -> (r: bool) {
        self.token.same(&other.token) && self.user.same(&other.user)
    }
}

} // verus!
