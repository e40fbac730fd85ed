//! The scalar of the renderer: a binary fixed-point number.
//!
//! A value is an `i64` holding the real number it stands for scaled by
//! `SCALE`. Every operation computes the exact result in wide integers,
//! rounds toward zero where the scale must be divided out, and clips the
//! outcome into the symmetric range `[-MAX_RAW, MAX_RAW]`; the operations
//! are therefore total and their contracts pin the result exactly.
//! The view of an `Fx` is its raw scaled integer.

use vstd::prelude::*;

verus! {

/// Number of raw units per unit of value.
pub const SCALE: i64 = 65536;

/// Largest raw magnitude a scalar may hold; the range is symmetric so
/// that negation never overflows.
pub const MAX_RAW: i64 = i64::MAX;

/// A fixed-point scalar; the raw field holds the value times `SCALE`.
#[derive(Clone, Copy, Debug, PartialEq, Eq, Structural)]
pub struct Fx {
    pub raw: i64,
}

/// Clips an unbounded result into the representable symmetric range.
pub open spec fn clip(v: int) -> int {
    if v > MAX_RAW {
        MAX_RAW as int
    } else if v < -(MAX_RAW as int) {
        -(MAX_RAW as int)
    } else {
        v
    }
}

/// Division by `SCALE` rounding toward zero, as the scaling step of a
/// product does.
pub open spec fn scale_down(v: int) -> int {
    if v >= 0 {
        v / (SCALE as int)
    } else {
        -((-v) / (SCALE as int))
    }
}

/// What addition returns.
pub open spec fn add_spec(a: int, b: int) -> int {
    clip(a + b)
}

/// What subtraction returns.
pub open spec fn sub_spec(a: int, b: int) -> int {
    clip(a - b)
}

/// What negation returns.
pub open spec fn neg_spec(a: int) -> int {
    clip(-a)
}

/// What multiplication returns: the raw product carries `SCALE` twice,
/// so one factor of `SCALE` is divided out, rounding toward zero.
pub open spec fn mul_spec(a: int, b: int) -> int {
    clip(scale_down(a * b))
}

/// Truncated quotient of two raw values scaled back up, rounding toward
/// zero; the divisor must not be zero.
pub open spec fn div_spec(a: int, b: int) -> int {
    if (a >= 0) == (b >= 0) {
        clip((abs_int(a) * (SCALE as int)) / abs_int(b))
    } else {
        clip(-((abs_int(a) * (SCALE as int)) / abs_int(b)))
    }
}

/// Magnitude of an integer.
pub open spec fn abs_int(v: int) -> int {
    if v >= 0 {
        v
    } else {
        -v
    }
}

/// The integer square root: the unique `r` with `r * r <= n < (r + 1) * (r + 1)`.
pub open spec fn sqrt_nat(n: int) -> int {
    choose|r: int| 0 <= r && #[trigger] (r * r) <= n && n < (r + 1) * (r + 1)
}

/// What the scalar square root returns: the raw result `r` satisfies
/// `(r / SCALE)^2 <= v / SCALE` as closely as the representation allows,
/// which is the integer square root of the raw value times `SCALE`.
pub open spec fn sqrt_spec(v: int) -> int {
    sqrt_nat(v * (SCALE as int))
}

/// Every non-negative integer has an integer square root.
pub proof fn lemma_sqrt_exists(n: int)
    requires
        n >= 0,
    ensures
        exists|r: int| 0 <= r && #[trigger] (r * r) <= n && n < (r + 1) * (r + 1),
    decreases n,
{
    if n == 0 {
        let z: int = 0;
        assert(z * z == 0 && (z + 1) * (z + 1) == 1) by (nonlinear_arith)
            requires
                z == 0,
        ;
        assert(0 <= z && z * z <= n && n < (z + 1) * (z + 1));
    } else {
        lemma_sqrt_exists(n - 1);
        let r0 = choose|r: int| 0 <= r && #[trigger] (r * r) <= n - 1 && n - 1 < (r + 1) * (r + 1);
        if n < (r0 + 1) * (r0 + 1) {
            assert(0 <= r0 && r0 * r0 <= n && n < (r0 + 1) * (r0 + 1));
        } else {
            assert(n == (r0 + 1) * (r0 + 1));
            assert((r0 + 1) * (r0 + 1) < (r0 + 2) * (r0 + 2)) by (nonlinear_arith)
                requires
                    r0 >= 0,
            ;
            assert(0 <= r0 + 1 && (r0 + 1) * (r0 + 1) <= n && n < (r0 + 2) * (r0 + 2));
        }
    }
}

/// The integer square root is unique.
pub proof fn lemma_sqrt_unique(n: int, r1: int, r2: int)
    requires
        0 <= r1,
        r1 * r1 <= n,
        n < (r1 + 1) * (r1 + 1),
        0 <= r2,
        r2 * r2 <= n,
        n < (r2 + 1) * (r2 + 1),
    ensures
        r1 == r2,
{
    assert(r1 == r2) by (nonlinear_arith)
        requires
            0 <= r1,
            r1 * r1 <= n,
            n < (r1 + 1) * (r1 + 1),
            0 <= r2,
            r2 * r2 <= n,
            n < (r2 + 1) * (r2 + 1),
    ;
}

/// The defining bounds of `sqrt_nat` on a non-negative argument.
pub proof fn lemma_sqrt_bounds(n: int)
    requires
        n >= 0,
    ensures
        0 <= sqrt_nat(n),
        sqrt_nat(n) * sqrt_nat(n) <= n,
        n < (sqrt_nat(n) + 1) * (sqrt_nat(n) + 1),
{
    lemma_sqrt_exists(n);
}

/// A bound on the square bounds the root.
pub proof fn lemma_sqrt_le(n: int, h: int)
    requires
        0 <= n,
        0 <= h,
        n <= h * h,
    ensures
        sqrt_nat(n) <= h,
{
    lemma_sqrt_bounds(n);
    let r = sqrt_nat(n);
    assert(r <= h) by (nonlinear_arith)
        requires
            0 <= r,
            0 <= h,
            n < (r + 1) * (r + 1),
            n <= h * h,
            r * r <= n,
    ;
}

/// Division by a positive scalar is monotone in the dividend.
pub proof fn lemma_div_spec_monotone(x: int, y: int, b: int)
    requires
        x <= y,
        b > 0,
    ensures
        div_spec(x, b) <= div_spec(y, b),
{
    if x >= 0 {
        assert((abs_int(x) * (SCALE as int)) / abs_int(b) <= (abs_int(y) * (SCALE as int))
            / abs_int(b)) by (nonlinear_arith)
            requires
                0 <= x <= y,
                b > 0,
                abs_int(x) == x,
                abs_int(y) == y,
                abs_int(b) == b,
        ;
    } else if y < 0 {
        assert((abs_int(y) * (SCALE as int)) / abs_int(b) <= (abs_int(x) * (SCALE as int))
            / abs_int(b)) by (nonlinear_arith)
            requires
                x <= y < 0,
                b > 0,
                abs_int(x) == -x,
                abs_int(y) == -y,
                abs_int(b) == b,
        ;
    } else {
        assert((abs_int(x) * (SCALE as int)) / abs_int(b) >= 0 && (abs_int(y) * (SCALE as int))
            / abs_int(b) >= 0) by (nonlinear_arith)
            requires
                x < 0 <= y,
                b > 0,
                abs_int(x) == -x,
                abs_int(y) == y,
                abs_int(b) == b,
        ;
    }
}

/// A non-positive dividend and a positive divisor give a non-positive
/// quotient.
pub proof fn lemma_div_spec_nonpos(a: int, b: int)
    requires
        a <= 0,
        b > 0,
    ensures
        div_spec(a, b) <= 0,
{
    if a < 0 {
        assert((abs_int(a) * (SCALE as int)) / abs_int(b) >= 0) by (nonlinear_arith)
            requires
                a < 0,
                b > 0,
                abs_int(a) == -a,
                abs_int(b) == b,
        ;
    }
}

/// Dividing by the scalar one gives the value back.
pub proof fn lemma_div_by_one(a: int)
    requires
        -(MAX_RAW as int) <= a <= MAX_RAW as int,
    ensures
        div_spec(a, SCALE as int) == a,
{
    assert((abs_int(a) * (SCALE as int)) / (SCALE as int) == abs_int(a)) by (nonlinear_arith)
        requires
            abs_int(a) >= 0,
    ;
}

impl View for Fx {
    type V = int;

    open spec fn view(&self) -> int {
        self.raw as int
    }
}

/// Clips a wide intermediate result back into a raw scalar.
fn clip_i128(v: i128) -> (r: i64)
    ensures
        r as int == clip(v as int),
{
    if v > MAX_RAW as i128 {
        MAX_RAW
    } else if v < -(MAX_RAW as i128) {
        -MAX_RAW
    } else {
        v as i64
    }
}

/// The product of two `i64`-range factors stays within the wide range.
proof fn lemma_i64_prod_bounds(a: int, b: int)
    requires
        -0x8000_0000_0000_0000 <= a <= 0x7fff_ffff_ffff_ffff,
        -0x8000_0000_0000_0000 <= b <= 0x7fff_ffff_ffff_ffff,
    ensures
        -0x4000_0000_0000_0000_0000_0000_0000_0000 <= a * b
            <= 0x4000_0000_0000_0000_0000_0000_0000_0000,
{
    assert(-0x4000_0000_0000_0000_0000_0000_0000_0000 <= a * b
        <= 0x4000_0000_0000_0000_0000_0000_0000_0000) by (nonlinear_arith)
        requires
            -0x8000_0000_0000_0000 <= a <= 0x7fff_ffff_ffff_ffff,
            -0x8000_0000_0000_0000 <= b <= 0x7fff_ffff_ffff_ffff,
    ;
}

impl Fx {
    /// Builds a scalar directly from a raw scaled integer.
    pub fn from_raw(raw: i64) -> (r: Fx)
        ensures
            r@ == clip(raw as int),
    {
        if raw == i64::MIN {
            Fx { raw: -MAX_RAW }
        } else {
            Fx { raw }
        }
    }

    /// Builds the scalar standing for the integer `n`.
    pub fn from_int(n: i64) -> (r: Fx)
        ensures
            r@ == clip(n * (SCALE as int)),
    {
        proof {
            lemma_i64_prod_bounds(n as int, SCALE as int);
        }
        Fx { raw: clip_i128((n as i128) * (SCALE as i128)) }
    }

    /// The raw scaled integer of this scalar.
    pub fn raw(self) -> (r: i64)
        ensures
            r as int == self@,
    {
        self.raw
    }

    /// The scalar zero.
    pub fn zero() -> (r: Fx)
        ensures
            r@ == 0,
    {
        Fx { raw: 0 }
    }

    /// The scalar one.
    pub fn one() -> (r: Fx)
        ensures
            r@ == SCALE as int,
    {
        Fx { raw: SCALE }
    }

    /// Sum of two scalars.
    pub fn add(self, other: Fx) -> (r: Fx)
        ensures
            r@ == add_spec(self@, other@),
    {
        Fx { raw: clip_i128(self.raw as i128 + other.raw as i128) }
    }

    /// Difference of two scalars.
    pub fn sub(self, other: Fx) -> (r: Fx)
        ensures
            r@ == sub_spec(self@, other@),
    {
        Fx { raw: clip_i128(self.raw as i128 - other.raw as i128) }
    }

    /// Negation.
    pub fn neg(self) -> (r: Fx)
        ensures
            r@ == neg_spec(self@),
    {
        Fx { raw: clip_i128(-(self.raw as i128)) }
    }

    /// Product of two scalars.
    pub fn mul(self, other: Fx) -> (r: Fx)
        ensures
            r@ == mul_spec(self@, other@),
    {
        proof {
            lemma_i64_prod_bounds(self.raw as int, other.raw as int);
        }
        let p: i128 = (self.raw as i128) * (other.raw as i128);
        let m: u128 = if p >= 0 {
            p as u128
        } else {
            (-p) as u128
        };
        let d: u128 = m / (SCALE as u128);
        let q: i128 = if p >= 0 {
            d as i128
        } else {
            -(d as i128)
        };
        Fx { raw: clip_i128(q) }
    }

    /// Quotient of two scalars; the divisor must not be zero.
    pub fn div(self, other: Fx) -> (r: Fx)
        requires
            other@ != 0,
        ensures
            r@ == div_spec(self@, other@),
    {
        let na: u128 = if self.raw >= 0 {
            self.raw as u128
        } else {
            (-(self.raw as i128)) as u128
        };
        let nb: u128 = if other.raw >= 0 {
            other.raw as u128
        } else {
            (-(other.raw as i128)) as u128
        };
        let d: u128 = (na * (SCALE as u128)) / nb;
        let q: i128 = if (self.raw >= 0) == (other.raw >= 0) {
            d as i128
        } else {
            -(d as i128)
        };
        Fx { raw: clip_i128(q) }
    }

    /// Square root of a non-negative scalar, rounded down to the
    /// representation: the raw result is the integer square root of the
    /// raw argument times `SCALE`.
    pub fn sqrt(self) -> (r: Fx)
        requires
            self@ >= 0,
        ensures
            r@ == sqrt_spec(self@),
            r@ >= 0,
    {
        let t: u128 = (self.raw as u128) * (SCALE as u128);
        let mut lo: u128 = 0;
        let mut hi: u128 = 0x100_0000_0000;
        proof {
            assert((self.raw as u128) * (SCALE as u128) < 0x1_0000_0000_0000_0000_0000)
                by (nonlinear_arith)
                requires
                    0 <= self.raw < 0x8000_0000_0000_0000,
            ;
            assert(t < hi * hi) by (nonlinear_arith)
                requires
                    t < 0x1_0000_0000_0000_0000_0000,
                    hi == 0x100_0000_0000,
            ;
        }
        while lo + 1 < hi
            invariant
                lo < hi <= 0x100_0000_0000,
                (lo * lo) as int <= t as int,
                (t as int) < (hi * hi) as int,
            decreases hi - lo,
        {
            let mid: u128 = lo + (hi - lo) / 2;
            proof {
                assert(mid * mid <= 0x100_0000_0000 * 0x100_0000_0000) by (nonlinear_arith)
                    requires
                        mid <= 0x100_0000_0000,
                ;
            }
            if mid * mid <= t {
                lo = mid;
            } else {
                hi = mid;
            }
        }
        proof {
            assert(hi == lo + 1);
            lemma_sqrt_exists(t as int);
            lemma_sqrt_bounds(t as int);
            lemma_sqrt_unique(t as int, lo as int, sqrt_nat(t as int));
            assert(lo * lo <= t) by (nonlinear_arith)
                requires
                    (lo * lo) as int <= t as int,
            ;
        }
        Fx { raw: lo as i64 }
    }

    /// Magnitude.
    pub fn abs(self) -> (r: Fx)
        ensures
            r@ == clip(abs_int(self@)),
    {
        if self.raw >= 0 {
            self
        } else {
            Fx { raw: clip_i128(-(self.raw as i128)) }
        }
    }

    /// Strict order on the values.
    pub fn lt(self, other: Fx) -> (r: bool)
        ensures
            r == (self@ < other@),
    {
        self.raw < other.raw
    }

    /// Non-strict order on the values.
    pub fn le(self, other: Fx) -> (r: bool)
        ensures
            r == (self@ <= other@),
    {
        self.raw <= other.raw
    }

    /// The smaller of two scalars.
    pub fn min(self, other: Fx) -> (r: Fx)
        ensures
            r@ == if self@ <= other@ { self@ } else { other@ },
    {
        if self.raw <= other.raw {
            self
        } else {
            other
        }
    }

    /// The larger of two scalars.
    pub fn max(self, other: Fx) -> (r: Fx)
        ensures
            r@ == if self@ >= other@ { self@ } else { other@ },
    {
        if self.raw >= other.raw {
            self
        } else {
            other
        }
    }
}

} // verus!
