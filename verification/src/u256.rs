//! A 256-bit unsigned integer stored as four little-endian 64-bit limbs,
//! the layout that alloy's `U256` uses, viewed as a natural number.
use vstd::arithmetic::div_mod::{
    lemma_fundamental_div_mod, lemma_fundamental_div_mod_converse_div, lemma_mod_bound,
};
use vstd::prelude::*;

verus! {

/// 2^256, one past the largest value.
pub open spec fn u256_modulus() -> nat {
    0xffff_ffff_ffff_ffff_ffff_ffff_ffff_ffff_ffff_ffff_ffff_ffff_ffff_ffff_ffff_ffffnat + 1
}

/// The number that four little-endian limbs stand for.
pub open spec fn limbs_value(l0: u64, l1: u64, l2: u64, l3: u64) -> nat {
    l0 as nat + 0x1_0000_0000_0000_0000nat * (l1 as nat)
        + 0x1_0000_0000_0000_0000_0000_0000_0000_0000nat * (l2 as nat)
        + 0x1_0000_0000_0000_0000_0000_0000_0000_0000_0000_0000_0000_0000nat * (l3 as nat)
}

/// An unsigned 256-bit number, such as an amount in wei or a field element.
#[derive(Clone, Copy, Debug, PartialEq, Eq, Structural)]
pub struct U256 {
    /// Least significant limb.
    pub l0: u64,
    pub l1: u64,
    pub l2: u64,
    /// Most significant limb.
    pub l3: u64,
}

impl View for U256 {
    type V = nat;

    open spec fn view(&self) -> nat {
        limbs_value(self.l0, self.l1, self.l2, self.l3)
    }
}

impl U256 {
    pub fn zero() -> (r: U256)
        ensures
            r@ == 0,
    {
        U256 { l0: 0, l1: 0, l2: 0, l3: 0 }
    }

    pub fn from_u64(x: u64) -> (r: U256)
        ensures
            r@ == x,
    {
        U256 { l0: x, l1: 0, l2: 0, l3: 0 }
    }

    pub fn lt(&self, other: &U256) -> (r: bool)
        ensures
            r == (self@ < other@),
    {
        if self.l3 != other.l3 {
            self.l3 < other.l3
        } else if self.l2 != other.l2 {
            self.l2 < other.l2
        } else if self.l1 != other.l1 {
            self.l1 < other.l1
        } else {
            self.l0 < other.l0
        }
    }

    /// `self / d`, rounded down.
    pub fn div_u64(&self, d: u64) -> (r: U256)
        requires
            d > 0,
        ensures
            r@ == self@ / (d as nat),
    {
        let (q3, r3) = div_step(0, self.l3, d);
        let (q2, r2) = div_step(r3, self.l2, d);
        let (q1, r1) = div_step(r2, self.l1, d);
        let (q0, r0) = div_step(r1, self.l0, d);
        let r = U256 { l0: q0, l1: q1, l2: q2, l3: q3 };
        proof {
            let b = 0x1_0000_0000_0000_0000int;
            let a0 = q0 * d;
            let a1 = q1 * d;
            let a2 = q2 * d;
            let a3 = q3 * d;
            assert(d * r@ == a0 + b * a1 + b * b * a2 + b * b * b * a3) by (nonlinear_arith)
                requires
                    r@ == q0 + b * q1 + b * b * q2 + b * b * b * q3,
                    a0 == q0 * d,
                    a1 == q1 * d,
                    a2 == q2 * d,
                    a3 == q3 * d,
            ;
            assert(self@ == a0 + b * a1 + b * b * a2 + b * b * b * a3 + r0);
            assert(self@ == d * r@ + r0);
            assert(self@ == r@ * d + r0) by (nonlinear_arith)
                requires
                    self@ == d * r@ + r0,
            ;
            lemma_fundamental_div_mod_converse_div(self@ as int, d as int, r@ as int, r0 as int);
        }
        r
    }

    /// `self - other`, wrapping around 2^256 as ruint's `-` does.
    pub fn wrapping_sub(&self, other: &U256) -> (r: U256)
        ensures
            r@ == (if self@ >= other@ { self@ - other@ } else { self@ - other@ + u256_modulus() }),
    {
        let (r0, b0) = sub_limb(self.l0, other.l0, 0);
        let (r1, b1) = sub_limb(self.l1, other.l1, b0);
        let (r2, b2) = sub_limb(self.l2, other.l2, b1);
        let (r3, b3) = sub_limb(self.l3, other.l3, b2);
        let r = U256 { l0: r0, l1: r1, l2: r2, l3: r3 };
        proof {
            if b3 == 0 {
                assert(r@ + other@ == self@);
            } else {
                assert(r@ + other@ == self@ + u256_modulus());
            }
            assert(r@ < u256_modulus());
            assert(b3 == 0 <==> self@ >= other@);
        }
        r
    }
}

/// One step of long division by a 64-bit divisor: `rem * 2^64 + limb`
/// divided by `d`, giving a quotient limb and the new remainder.
fn div_step(rem: u64, limb: u64, d: u64) -> (r: (u64, u64))
    requires
        0 < d,
        rem < d,
    ensures
        r.1 < d,
        rem * 0x1_0000_0000_0000_0000int + limb == r.0 * d + r.1,
{
    let cur: u128 = (rem as u128) * 0x1_0000_0000_0000_0000u128 + (limb as u128);
    proof {
        assert(rem * 0x1_0000_0000_0000_0000int + limb < d * 0x1_0000_0000_0000_0000int) by (nonlinear_arith)
            requires
                rem < d,
                limb < 0x1_0000_0000_0000_0000int,
        ;
    }
    let q: u128 = cur / (d as u128);
    let m: u128 = cur % (d as u128);
    proof {
        lemma_fundamental_div_mod(cur as int, d as int);
        lemma_mod_bound(cur as int, d as int);
        assert(q < 0x1_0000_0000_0000_0000int) by (nonlinear_arith)
            requires
                cur == d * q + m,
                0 <= m,
                cur < d * 0x1_0000_0000_0000_0000int,
                d > 0,
        ;
    }
    proof {
        assert(cur == q * d + m) by (nonlinear_arith)
            requires
                cur == d * q + m,
        ;
    }
    (q as u64, m as u64)
}

/// One limb of a subtraction with borrow: `x - y - borrow_in` as a limb and the borrow out.
fn sub_limb(x: u64, y: u64, borrow_in: u64) -> (r: (u64, u64))
    requires
        borrow_in <= 1,
    ensures
        r.1 <= 1,
        r.0 == x - y - borrow_in + r.1 * 0x1_0000_0000_0000_0000int,
{
    if (x as u128) >= (y as u128) + (borrow_in as u128) {
        (x - y - borrow_in, 0)
    } else {
        ((x as u128 + 0x1_0000_0000_0000_0000u128 - y as u128 - borrow_in as u128) as u64, 1)
    }
}

/// Every value is below 2^256.
pub proof fn lemma_view_bound(a: U256)
    ensures
        a@ < u256_modulus(),
{
}

/// Two values are equal exactly when their limbs are.
pub proof fn lemma_view_injective(a: U256, b: U256)
    ensures
        a@ == b@ <==> a == b,
{
    if a.l3 != b.l3 || a.l2 != b.l2 || a.l1 != b.l1 {
        assert(a@ != b@);
    }
}

} // verus!
