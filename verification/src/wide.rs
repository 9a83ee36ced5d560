//! A 256-bit unsigned integer, wide enough to hold the product of two
//! balances before it is divided by the reward denominator.

use vstd::prelude::*;
use vstd::arithmetic::div_mod::{
    lemma_fundamental_div_mod,
    lemma_fundamental_div_mod_converse,
    lemma_mod_bound,
};

verus! {

/// Two to the power 64: the base of the four digits of a [`U256`].
pub const BASE: u128 = 0x1_0000_0000_0000_0000;

/// Two to the power 128, as a mathematical integer.
pub open spec fn pow128() -> int {
    0x1_0000_0000_0000_0000_0000_0000_0000_0000int
}

/// A 256-bit unsigned integer held as two 128-bit halves.
#[derive(Clone, Copy, Debug, PartialEq, Eq, Structural)]
pub struct U256 {
    /// The upper 128 bits.
    pub hi: u128,
    /// The lower 128 bits.
    pub lo: u128,
}

impl View for U256 {
    type V = int;

    /// The number that the two halves stand for.
    open spec fn view(&self) -> int {
        self.hi * pow128() + self.lo
    }
}

/// The product of two digits fits in 128 bits.
proof fn lemma_digit_product(x: int, y: int)
    by (nonlinear_arith)
    requires
        0 <= x < 0x1_0000_0000_0000_0000,
        0 <= y < 0x1_0000_0000_0000_0000,
    ensures
        0 <= x * y <= 0xffff_ffff_ffff_ffff * 0xffff_ffff_ffff_ffff,
{
}

/// A product of two two-digit numbers, written out by digits.
proof fn lemma_cross_product(a1: int, a0: int, b1: int, b0: int, b: int)
    ensures
        (a1 * b + a0) * (b1 * b + b0) == (a1 * b1) * (b * b) + (a0 * b1 + a1 * b0) * b + a0 * b0,
{
    let x = a1 * b;
    let y = b1 * b;
    assert((x + a0) * (y + b0) == x * y + x * b0 + a0 * y + a0 * b0) by (nonlinear_arith);
    assert(x * y == (a1 * b1) * (b * b)) by (nonlinear_arith)
        requires
            x == a1 * b,
            y == b1 * b,
    ;
    assert(x * b0 == (a1 * b0) * b) by (nonlinear_arith)
        requires
            x == a1 * b,
    ;
    assert(a0 * y == (a0 * b1) * b) by (nonlinear_arith)
        requires
            y == b1 * b,
    ;
    assert((a0 * b1 + a1 * b0) * b == (a0 * b1) * b + (a1 * b0) * b) by (nonlinear_arith);
}

/// The product of two 128-bit numbers is below two to the power 256.
proof fn lemma_product_bound(a: int, b: int)
    by (nonlinear_arith)
    requires
        0 <= a <= 0xffff_ffff_ffff_ffff_ffff_ffff_ffff_ffff,
        0 <= b <= 0xffff_ffff_ffff_ffff_ffff_ffff_ffff_ffff,
    ensures
        0 <= a * b <= 0xffff_ffff_ffff_ffff_ffff_ffff_ffff_ffff
            * 0xffff_ffff_ffff_ffff_ffff_ffff_ffff_ffff,
{
}

/// One step of schoolbook division: a remainder below the divisor, followed by
/// one more digit, gives a one-digit quotient.
proof fn lemma_division_step(r: int, l: int, d: int)
    requires
        0 < d < 0x1_0000_0000_0000_0000,
        0 <= r < d,
        0 <= l < 0x1_0000_0000_0000_0000,
    ensures
        0 <= r * 0x1_0000_0000_0000_0000 + l < 0x1_0000_0000_0000_0000_0000_0000_0000_0000,
        0 <= (r * 0x1_0000_0000_0000_0000 + l) / d < 0x1_0000_0000_0000_0000,
        0 <= (r * 0x1_0000_0000_0000_0000 + l) % d < d,
        r * 0x1_0000_0000_0000_0000 + l == d * ((r * 0x1_0000_0000_0000_0000 + l) / d) + (r
            * 0x1_0000_0000_0000_0000 + l) % d,
{
    let c = r * 0x1_0000_0000_0000_0000 + l;
    let q = c / d;
    lemma_fundamental_div_mod(c, d);
    lemma_mod_bound(c, d);
    assert(q < 0x1_0000_0000_0000_0000) by (nonlinear_arith)
        requires
            0 < d,
            0 <= r < d,
            0 <= l < 0x1_0000_0000_0000_0000,
            c == r * 0x1_0000_0000_0000_0000 + l,
            c == d * q + c % d,
            0 <= c % d < d,
    ;
    assert(q >= 0) by (nonlinear_arith)
        requires
            0 < d,
            0 <= c,
            c == d * q + c % d,
            0 <= c % d < d,
    ;
}

/// Four quotient digits times the divisor, written out by digits.
proof fn lemma_quotient_digits(d: int, q3: int, q2: int, q1: int, q0: int)
    ensures
        (q3 * 0x1_0000_0000_0000_0000_0000_0000_0000_0000_0000_0000_0000_0000 + q2
            * 0x1_0000_0000_0000_0000_0000_0000_0000_0000 + q1 * 0x1_0000_0000_0000_0000 + q0) * d
            == (d * q3) * 0x1_0000_0000_0000_0000_0000_0000_0000_0000_0000_0000_0000_0000 + (d
            * q2) * 0x1_0000_0000_0000_0000_0000_0000_0000_0000 + (d * q1)
            * 0x1_0000_0000_0000_0000 + d * q0,
{
    let t3 = q3 * 0x1_0000_0000_0000_0000_0000_0000_0000_0000_0000_0000_0000_0000;
    let t2 = q2 * 0x1_0000_0000_0000_0000_0000_0000_0000_0000;
    let t1 = q1 * 0x1_0000_0000_0000_0000;
    assert((t3 + t2 + t1 + q0) * d == t3 * d + t2 * d + t1 * d + q0 * d) by (nonlinear_arith);
    assert(t3 * d == (d * q3) * 0x1_0000_0000_0000_0000_0000_0000_0000_0000_0000_0000_0000_0000)
        by (nonlinear_arith)
        requires
            t3 == q3 * 0x1_0000_0000_0000_0000_0000_0000_0000_0000_0000_0000_0000_0000,
    ;
    assert(t2 * d == (d * q2) * 0x1_0000_0000_0000_0000_0000_0000_0000_0000) by (nonlinear_arith)
        requires
            t2 == q2 * 0x1_0000_0000_0000_0000_0000_0000_0000_0000,
    ;
    assert(t1 * d == (d * q1) * 0x1_0000_0000_0000_0000) by (nonlinear_arith)
        requires
            t1 == q1 * 0x1_0000_0000_0000_0000,
    ;
    assert(q0 * d == d * q0) by (nonlinear_arith);
}

impl U256 {
    /// The full product of two 128-bit numbers: nothing is cut off.
    pub fn full_mul(a: u128, b: u128) -> (r: U256)
        ensures
            r@ == a * b,
    {
        let a1: u128 = a / BASE;
        let a0: u128 = a % BASE;
        let b1: u128 = b / BASE;
        let b0: u128 = b % BASE;
        proof {
            lemma_digit_product(a0 as int, b0 as int);
            lemma_digit_product(a0 as int, b1 as int);
            lemma_digit_product(a1 as int, b0 as int);
            lemma_digit_product(a1 as int, b1 as int);
            lemma_cross_product(
                a1 as int,
                a0 as int,
                b1 as int,
                b0 as int,
                0x1_0000_0000_0000_0000,
            );
            lemma_product_bound(a as int, b as int);
        }
        let p00: u128 = a0 * b0;
        let p01: u128 = a0 * b1;
        let p10: u128 = a1 * b0;
        let p11: u128 = a1 * b1;
        let mid: u128 = p00 / BASE + p01 % BASE + p10 % BASE;
        let lo: u128 = p00 % BASE + (mid % BASE) * BASE;
        let hi: u128 = p11 + p01 / BASE + p10 / BASE + mid / BASE;
        U256 { hi, lo }
    }

    /// The quotient of `self` by `d`, rounded down; `None` when `d` is zero.
    pub fn checked_div_u64(self, d: u64) -> (r: Option<U256>)
        ensures
            d == 0 ==> r is None,
            d != 0 ==> r is Some && r->0@ == self@ / (d as int),
    {
        if d == 0 {
            return None;
        }
        let dw: u128 = d as u128;
        let l3: u128 = self.hi / BASE;
        let l2: u128 = self.hi % BASE;
        let l1: u128 = self.lo / BASE;
        let l0: u128 = self.lo % BASE;
        proof {
            lemma_division_step(0, l3 as int, d as int);
        }
        let q3: u128 = l3 / dw;
        let r3: u128 = l3 % dw;
        proof {
            lemma_division_step(r3 as int, l2 as int, d as int);
        }
        let c2: u128 = r3 * BASE + l2;
        let q2: u128 = c2 / dw;
        let r2: u128 = c2 % dw;
        proof {
            lemma_division_step(r2 as int, l1 as int, d as int);
        }
        let c1: u128 = r2 * BASE + l1;
        let q1: u128 = c1 / dw;
        let r1: u128 = c1 % dw;
        proof {
            lemma_division_step(r1 as int, l0 as int, d as int);
        }
        let c0: u128 = r1 * BASE + l0;
        let q0: u128 = c0 / dw;
        let r0: u128 = c0 % dw;
        let q = U256 { hi: q3 * BASE + q2, lo: q1 * BASE + q0 };
        proof {
            lemma_quotient_digits(d as int, q3 as int, q2 as int, q1 as int, q0 as int);
            lemma_fundamental_div_mod_converse(self@, d as int, q@, r0 as int);
        }
        Some(q)
    }

    /// The value as a 128-bit number; `None` when it does not fit.
    pub fn as_u128(self) -> (r: Option<u128>)
        ensures
            self@ <= u128::MAX ==> r == Some(self@ as u128),
            self@ > u128::MAX ==> r is None,
    {
        if self.hi == 0 {
            Some(self.lo)
        } else {
            None
        }
    }
}

} // verus!
