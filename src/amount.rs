//! 256-bit transfer amounts, as EVM chains count value, and the scaling of
//! a whole-token amount into a token contract's smallest units.

use vstd::arithmetic::mul::lemma_mul_inequality;
use vstd::arithmetic::power::{lemma_pow_increases, pow};
use vstd::prelude::*;

verus! {

/// How many values one 64-bit limb holds.
pub open spec fn limb_base() -> int {
    0x1_0000_0000_0000_0000
}

/// One past the largest value that 256 bits hold.
pub open spec fn amount_limit() -> int {
    limb_base() * limb_base() * limb_base() * limb_base()
}

/// An unsigned 256-bit amount: four 64-bit limbs, least significant first.
#[derive(Clone, Copy, Debug, PartialEq, Eq)]
pub struct Amount {
    pub limbs: [u64; 4],
}

impl View for Amount {
    type V = int;

    open spec fn view(&self) -> int {
        self.limbs@[0] as int + limb_base() * (self.limbs@[1] as int + limb_base() * (
        self.limbs@[2] as int + limb_base() * self.limbs@[3] as int))
    }
}

impl Amount {
    /// The amount zero.
    pub fn zero() -> (r: Amount)
        ensures
            r@ == 0,
    {
        Amount { limbs: [0u64, 0u64, 0u64, 0u64] }
    }

    /// The amount equal to `v`.
    pub fn from_u64(v: u64) -> (r: Amount)
        ensures
            r@ == v as int,
    {
        Amount { limbs: [v, 0u64, 0u64, 0u64] }
    }

    /// Whether the amount is zero.
    pub fn is_zero(&self) -> (r: bool)
        ensures
            r == (self@ == 0),
    {
        let r = self.limbs[0] == 0 && self.limbs[1] == 0 && self.limbs[2] == 0
            && self.limbs[3] == 0;
        proof {
            lemma_amount_bounds(*self);
        }
        r
    }
}

/// An amount lies in `[0, amount_limit())`, and is zero only when each limb is.
pub proof fn lemma_amount_bounds(a: Amount)
    ensures
        0 <= a@ < amount_limit(),
        (a@ == 0) == (a.limbs@[0] == 0 && a.limbs@[1] == 0 && a.limbs@[2] == 0 && a.limbs@[3]
            == 0),
{
    let b = limb_base();
    let l0 = a.limbs@[0] as int;
    let l1 = a.limbs@[1] as int;
    let l2 = a.limbs@[2] as int;
    let l3 = a.limbs@[3] as int;
    assert(0 <= l0 < b && 0 <= l1 < b && 0 <= l2 < b && 0 <= l3 < b);
    let t2 = l2 + b * l3;
    assert(0 <= t2 < b * b) by (nonlinear_arith)
        requires
            0 <= l2 < b,
            0 <= l3 < b,
            t2 == l2 + b * l3,
            b > 0,
    ;
    let t1 = l1 + b * t2;
    assert(0 <= t1 < b * b * b) by (nonlinear_arith)
        requires
            0 <= l1 < b,
            0 <= t2 < b * b,
            t1 == l1 + b * t2,
            b > 0,
    ;
    let t0 = l0 + b * t1;
    assert(0 <= t0 < b * b * b * b) by (nonlinear_arith)
        requires
            0 <= l0 < b,
            0 <= t1 < b * b * b,
            t0 == l0 + b * t1,
            b > 0,
    ;
    assert(t0 == 0 ==> l0 == 0 && t1 == 0) by (nonlinear_arith)
        requires
            0 <= l0 < b,
            0 <= t1,
            t0 == l0 + b * t1,
            b > 0,
    ;
    assert(t1 == 0 ==> l1 == 0 && t2 == 0) by (nonlinear_arith)
        requires
            0 <= l1 < b,
            0 <= t2,
            t1 == l1 + b * t2,
            b > 0,
    ;
    assert(t2 == 0 ==> l2 == 0 && l3 == 0) by (nonlinear_arith)
        requires
            0 <= l2 < b,
            0 <= l3,
            t2 == l2 + b * l3,
            b > 0,
    ;
}

/// Ten to the 78th power no longer fits in 256 bits.
proof fn lemma_exp10_78_overflows()
    ensures
        pow(10, 78) >= amount_limit(),
{
    reveal_with_fuel(pow, 79);
}

/// Relies on `U256::exp10` of the `uint` crate (re-exported by ethers): ten to
/// the power `n`. It overflows, and panics, above 77.
#[verifier::external_body]
fn exp10(n: usize) -> (r: Amount)
    requires
        n <= 77,
    ensures
        r@ == pow(10, n as nat),
{
    Amount { limbs: ethers::types::U256::exp10(n).0 }
}

/// Relies on `U256::checked_mul` of the `uint` crate (re-exported by ethers):
/// the product, or `None` when it does not fit in 256 bits.
#[verifier::external_body]
fn checked_mul(a: Amount, b: Amount) -> (r: Option<Amount>)
    ensures
        match r {
            Some(p) => a@ * b@ < amount_limit() && p@ == a@ * b@,
            None => a@ * b@ >= amount_limit(),
        },
{
    ethers::types::U256(a.limbs).checked_mul(ethers::types::U256(b.limbs)).map(
        |p| Amount { limbs: p.0 },
    )
}

/// The on-chain unit amount of a token transfer: `amount` whole tokens of a
/// token with `decimals` decimal places is `amount * 10^decimals` units,
/// which must fit in 256 bits.
pub open spec fn scaled_amount(amount: int, decimals: nat) -> int {
    amount * pow(10, decimals)
}

/// Scales a whole-token amount to the token contract's units. `None` exactly
/// when the result does not fit in 256 bits.
pub fn scale_token_amount(amount: Amount, decimals: u8) -> (r: Option<Amount>)
    ensures
        r is Some <==> scaled_amount(amount@, decimals as nat) < amount_limit(),
        r matches Some(v) ==> v@ == scaled_amount(amount@, decimals as nat),
{
    if decimals <= 77 {
        let p = exp10(decimals as usize);
        checked_mul(amount, p)
    } else if amount.is_zero() {
        Some(Amount::zero())
    } else {
        proof {
            lemma_amount_bounds(amount);
            lemma_exp10_78_overflows();
            lemma_pow_increases(10, 78, decimals as nat);
            lemma_mul_inequality(1, amount@, pow(10, decimals as nat));
        }
        None
    }
}

} // verus!
