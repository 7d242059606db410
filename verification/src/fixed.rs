//! Signed fixed-point scalars with sixteen fractional bits and saturating
//! arithmetic. Every operation is total: a result that leaves the
//! representable range is clamped to the nearest bound, and a quotient that
//! is not a whole number of steps is rounded toward zero.

use vstd::prelude::*;

verus! {

/// Raw steps in one unit.
pub const ONE_RAW: i64 = 65536;

/// Raw steps in a half.
pub const HALF_RAW: i64 = 32768;

/// Largest raw magnitude that an arithmetic result takes.
pub const MAX_RAW: i64 = 0x7fff_ffff_ffff_ffff;

/// Clamps an integer into `[-MAX_RAW, MAX_RAW]`.
pub open spec fn sat(x: int) -> int {
    if x > MAX_RAW as int {
        MAX_RAW as int
    } else if x < -(MAX_RAW as int) {
        -(MAX_RAW as int)
    } else {
        x
    }
}

/// Quotient of `n` by a non-zero `d`, rounded toward zero.
pub open spec fn trunc_div(n: int, d: int) -> int
    recommends
        d != 0,
{
    if d > 0 {
        if n >= 0 {
            n / d
        } else {
            -((-n) / d)
        }
    } else {
        if n >= 0 {
            -(n / (-d))
        } else {
            (-n) / (-d)
        }
    }
}

/// `r` is the integer square root of `n`, rounded down.
pub open spec fn is_floor_sqrt(n: int, r: int) -> bool {
    0 <= r && r * r <= n < (r + 1) * (r + 1)
}

/// The integer square root of `n`, rounded down (for `n >= 0`).
pub open spec fn floor_sqrt(n: int) -> int {
    choose|r: int| is_floor_sqrt(n, r)
}

/// At most one integer is the rounded-down square root of `n`.
pub proof fn lemma_floor_sqrt_unique(n: int, r1: int, r2: int)
    requires
        is_floor_sqrt(n, r1),
        is_floor_sqrt(n, r2),
    ensures
        r1 == r2,
{
    if r1 < r2 {
        assert((r1 + 1) * (r1 + 1) <= r2 * r2) by (nonlinear_arith)
            requires
                0 <= r1,
                r1 + 1 <= r2,
        ;
    } else if r2 < r1 {
        assert((r2 + 1) * (r2 + 1) <= r1 * r1) by (nonlinear_arith)
            requires
                0 <= r2,
                r2 + 1 <= r1,
        ;
    }
}

/// Any witness of the rounded-down square root is `floor_sqrt`.
pub proof fn lemma_floor_sqrt_is(n: int, r: int)
    requires
        is_floor_sqrt(n, r),
    ensures
        floor_sqrt(n) == r,
{
    lemma_floor_sqrt_unique(n, r, floor_sqrt(n));
}

/// Every number that is not negative has a rounded-down square root.
pub proof fn lemma_floor_sqrt_exists(n: int)
    requires
        n >= 0,
    ensures
        is_floor_sqrt(n, floor_sqrt(n)),
    decreases n,
{
    if n == 0 {
        assert(is_floor_sqrt(0, 0));
    } else {
        lemma_floor_sqrt_exists(n - 1);
        let r = floor_sqrt(n - 1);
        if (r + 1) * (r + 1) <= n {
            assert(n < (r + 2) * (r + 2)) by (nonlinear_arith)
                requires
                    0 <= r,
                    n - 1 < (r + 1) * (r + 1),
            ;
            assert(is_floor_sqrt(n, r + 1));
        } else {
            assert(is_floor_sqrt(n, r));
        }
    }
}

/// Rounding toward zero keeps the order of the numerators.
pub proof fn lemma_trunc_div_monotone(n1: int, n2: int, d: int)
    requires
        d > 0,
        n1 <= n2,
    ensures
        trunc_div(n1, d) <= trunc_div(n2, d),
{
    if n1 >= 0 {
        vstd::arithmetic::div_mod::lemma_div_is_ordered(n1, n2, d);
    } else if n2 >= 0 {
        vstd::arithmetic::div_mod::lemma_div_is_ordered(0, -n1, d);
        vstd::arithmetic::div_mod::lemma_div_is_ordered(0, n2, d);
    } else {
        vstd::arithmetic::div_mod::lemma_div_is_ordered(-n2, -n1, d);
    }
}

/// A fixed-point number: `raw` counts steps of `1 / 65536`.
#[derive(Clone, Copy, Debug, PartialEq, Eq, Structural)]
pub struct Fixed {
    pub raw: i64,
}

impl View for Fixed {
    type V = int;

    open spec fn view(&self) -> int {
        self.raw as int
    }
}

/// Clamps a wide intermediate into a `Fixed`.
fn saturate(x: i128) -> (r: Fixed)
    ensures
        r@ == sat(x as int),
{
    if x > MAX_RAW as i128 {
        Fixed { raw: MAX_RAW }
    } else if x < -(MAX_RAW as i128) {
        Fixed { raw: -MAX_RAW }
    } else {
        Fixed { raw: x as i64 }
    }
}

/// Divides rounding toward zero, on the magnitudes of both operands.
fn div_toward_zero(n: i128, d: i128) -> (q: i128)
    requires
        d != 0,
        n > i128::MIN,
        d > i128::MIN,
    ensures
        q == trunc_div(n as int, d as int),
{
    let un: u128 = if n >= 0 {
        n as u128
    } else {
        (-n) as u128
    };
    let ud: u128 = if d >= 0 {
        d as u128
    } else {
        (-d) as u128
    };
    let uq: u128 = un / ud;
    assert(uq <= un) by (nonlinear_arith)
        requires
            uq == un / ud,
            ud > 0,
    ;
    let m: i128 = uq as i128;
    if (n >= 0) == (d > 0) {
        m
    } else {
        -m
    }
}

/// Integer square root by bisection.
fn isqrt(n: u128) -> (r: u128)
    requires
        n < 0x1_0000_0000_0000_0000_0000,
    ensures
        is_floor_sqrt(n as int, r as int),
        r < 0x100_0000_0000,
{
    let mut lo: u128 = 0;
    let mut hi: u128 = 0x100_0000_0000;
    while hi - lo > 1
        invariant
            lo < hi <= 0x100_0000_0000,
            lo * lo <= n < hi * hi,
        decreases hi - lo,
    {
        let mid: u128 = lo + (hi - lo) / 2;
        assert(mid * mid < 0x1_0000_0000_0000_0000_0000) by (nonlinear_arith)
            requires
                mid < 0x100_0000_0000,
        ;
        if mid * mid <= n {
            lo = mid;
        } else {
            hi = mid;
        }
    }
    lo
}

impl Fixed {
    /// Zero.
    pub open spec fn spec_zero() -> Fixed {
        Fixed { raw: 0 }
    }

    /// One.
    pub open spec fn spec_one() -> Fixed {
        Fixed { raw: ONE_RAW }
    }

    pub open spec fn spec_from_int(i: i32) -> Fixed {
        Fixed { raw: (i as int * ONE_RAW as int) as i64 }
    }

    pub open spec fn spec_from_u32(n: u32) -> Fixed {
        Fixed { raw: (n as int * ONE_RAW as int) as i64 }
    }

    /// A half.
    pub open spec fn spec_half() -> Fixed {
        Fixed { raw: HALF_RAW }
    }

    pub open spec fn spec_neg(self) -> Fixed {
        Fixed { raw: sat(-self@) as i64 }
    }

    pub open spec fn spec_abs(self) -> Fixed {
        if self.raw < 0 {
            self.spec_neg()
        } else {
            self
        }
    }

    pub open spec fn spec_add(self, rhs: Fixed) -> Fixed {
        Fixed { raw: sat(self@ + rhs@) as i64 }
    }

    pub open spec fn spec_sub(self, rhs: Fixed) -> Fixed {
        Fixed { raw: sat(self@ - rhs@) as i64 }
    }

    /// Product, rounded toward zero to a whole step, then clamped.
    pub open spec fn spec_mul(self, rhs: Fixed) -> Fixed {
        Fixed { raw: sat(trunc_div(self@ * rhs@, ONE_RAW as int)) as i64 }
    }

    /// Quotient, rounded toward zero, then clamped. A non-zero value divided
    /// by zero gives the bound of its sign; zero divided by zero gives zero.
    pub open spec fn spec_div(self, rhs: Fixed) -> Fixed {
        if rhs.raw == 0 {
            if self.raw > 0 {
                Fixed { raw: MAX_RAW }
            } else if self.raw < 0 {
                Fixed { raw: (-MAX_RAW) as i64 }
            } else {
                Fixed { raw: 0 }
            }
        } else {
            Fixed { raw: sat(trunc_div(self@ * ONE_RAW as int, rhs@)) as i64 }
        }
    }

    /// Square root, rounded down to a whole step. Zero for a value that is
    /// not positive.
    pub open spec fn spec_sqrt(self) -> Fixed {
        if self.raw <= 0 {
            Fixed { raw: 0 }
        } else {
            Fixed { raw: floor_sqrt(self@ * ONE_RAW as int) as i64 }
        }
    }

    pub open spec fn spec_min(self, rhs: Fixed) -> Fixed {
        if rhs.raw < self.raw {
            rhs
        } else {
            self
        }
    }

    pub open spec fn spec_max(self, rhs: Fixed) -> Fixed {
        if rhs.raw > self.raw {
            rhs
        } else {
            self
        }
    }

    /// The whole part, rounded toward zero.
    pub open spec fn spec_trunc(self) -> int {
        trunc_div(self@, ONE_RAW as int)
    }

    pub fn zero() -> (r: Fixed)
        ensures
            r == Fixed::spec_zero(),
    {
        Fixed { raw: 0 }
    }

    pub fn half() -> (r: Fixed)
        ensures
            r == Fixed::spec_half(),
    {
        Fixed { raw: HALF_RAW }
    }

    pub fn one() -> (r: Fixed)
        ensures
            r == Fixed::spec_one(),
    {
        Fixed { raw: ONE_RAW }
    }

    /// The number with the given raw step count.
    pub fn from_raw(raw: i64) -> (r: Fixed)
        ensures
            r.raw == raw,
    {
        Fixed { raw }
    }

    /// The whole number `i`.
    pub fn from_int(i: i32) -> (r: Fixed)
        ensures
            r == Fixed::spec_from_int(i),
            r@ == i * ONE_RAW,
    {
        Fixed { raw: (i as i64) * ONE_RAW }
    }

    /// The whole number `n`.
    pub fn from_u32(n: u32) -> (r: Fixed)
        ensures
            r == Fixed::spec_from_u32(n),
            r@ == n * ONE_RAW,
    {
        Fixed { raw: (n as i64) * ONE_RAW }
    }

    pub fn raw(&self) -> (r: i64)
        ensures
            r == self.raw,
    {
        self.raw
    }

    pub fn neg(self) -> (r: Fixed)
        ensures
            r == self.spec_neg(),
    {
        saturate(-(self.raw as i128))
    }

    pub fn abs(self) -> (r: Fixed)
        ensures
            r == self.spec_abs(),
    {
        if self.raw < 0 {
            self.neg()
        } else {
            self
        }
    }

    pub fn add(self, rhs: Fixed) -> (r: Fixed)
        ensures
            r == self.spec_add(rhs),
    {
        saturate(self.raw as i128 + rhs.raw as i128)
    }

    pub fn sub(self, rhs: Fixed) -> (r: Fixed)
        ensures
            r == self.spec_sub(rhs),
    {
        saturate(self.raw as i128 - rhs.raw as i128)
    }

    pub fn mul(self, rhs: Fixed) -> (r: Fixed)
        ensures
            r == self.spec_mul(rhs),
    {
        let a: i128 = self.raw as i128;
        let b: i128 = rhs.raw as i128;
        assert(-0x4000_0000_0000_0000_0000_0000_0000_0000 <= a * b
            <= 0x4000_0000_0000_0000_0000_0000_0000_0000) by (nonlinear_arith)
            requires
                -0x8000_0000_0000_0000 <= a <= 0x8000_0000_0000_0000,
                -0x8000_0000_0000_0000 <= b <= 0x8000_0000_0000_0000,
        ;
        saturate(div_toward_zero(a * b, ONE_RAW as i128))
    }

    pub fn div(self, rhs: Fixed) -> (r: Fixed)
        ensures
            r == self.spec_div(rhs),
    {
        if rhs.raw == 0 {
            if self.raw > 0 {
                Fixed { raw: MAX_RAW }
            } else if self.raw < 0 {
                Fixed { raw: -MAX_RAW }
            } else {
                Fixed { raw: 0 }
            }
        } else {
            let a: i128 = self.raw as i128;
            let one: i128 = ONE_RAW as i128;
            assert(-0x1_0000_0000_0000_0000_0000 <= a * one <= 0x1_0000_0000_0000_0000_0000)
                by (nonlinear_arith)
                requires
                    -0x8000_0000_0000_0000 <= a <= 0x8000_0000_0000_0000,
                    one == 65536,
            ;
            let n: i128 = a * one;
            saturate(div_toward_zero(n, rhs.raw as i128))
        }
    }

    pub fn sqrt(self) -> (r: Fixed)
        ensures
            r == self.spec_sqrt(),
    {
        if self.raw <= 0 {
            Fixed { raw: 0 }
        } else {
            assert(ONE_RAW == 65536);
            let n: u128 = (self.raw as u128) * (ONE_RAW as u128);
            let s: u128 = isqrt(n);
            proof {
                lemma_floor_sqrt_is(n as int, s as int);
            }
            Fixed { raw: s as i64 }
        }
    }

    pub fn min(self, rhs: Fixed) -> (r: Fixed)
        ensures
            r == self.spec_min(rhs),
    {
        if rhs.raw < self.raw {
            rhs
        } else {
            self
        }
    }

    pub fn max(self, rhs: Fixed) -> (r: Fixed)
        ensures
            r == self.spec_max(rhs),
    {
        if rhs.raw > self.raw {
            rhs
        } else {
            self
        }
    }

    pub fn lt(self, rhs: Fixed) -> (b: bool)
        ensures
            b == (self@ < rhs@),
    {
        self.raw < rhs.raw
    }

    pub fn le(self, rhs: Fixed) -> (b: bool)
        ensures
            b == (self@ <= rhs@),
    {
        self.raw <= rhs.raw
    }

    /// The whole part, rounded toward zero.
    pub fn trunc(self) -> (i: i64)
        ensures
            i == self.spec_trunc(),
    {
        self.raw / ONE_RAW
    }
}

/// A square root is never negative.
pub proof fn lemma_sqrt_nonneg(x: Fixed)
    ensures
        x.spec_sqrt()@ >= 0,
{
    if x.raw > 0 {
        let n = x@ * ONE_RAW as int;
        lemma_floor_sqrt_exists(n);
        let r = floor_sqrt(n);
        assert(r < 0x100_0000_0000) by (nonlinear_arith)
            requires
                0 <= r,
                r * r <= n,
                n < 0x1_0000_0000_0000_0000_0000,
        ;
    }
}

/// A square is never negative.
pub proof fn lemma_square_nonneg(x: Fixed)
    ensures
        x.spec_mul(x)@ >= 0,
{
    assert(x@ * x@ >= 0) by (nonlinear_arith);
    vstd::arithmetic::div_mod::lemma_div_is_ordered(0, x@ * x@, ONE_RAW as int);
}

/// Division by a number that is not negative keeps the order of the
/// numerators.
pub proof fn lemma_div_monotone(a1: Fixed, a2: Fixed, d: Fixed)
    requires
        a1@ <= a2@,
        d@ >= 0,
    ensures
        a1.spec_div(d)@ <= a2.spec_div(d)@,
{
    if d.raw != 0 {
        lemma_trunc_div_monotone(a1@ * ONE_RAW as int, a2@ * ONE_RAW as int, d@);
    }
}

/// Multiplying by the negative of a number gives the negative of the
/// product.
pub proof fn lemma_mul_neg(a: Fixed, b: Fixed)
    requires
        b@ >= -MAX_RAW,
    ensures
        a.spec_mul(b.spec_neg()) == a.spec_mul(b).spec_neg(),
{
    assert(a@ * (-b@) == -(a@ * b@)) by (nonlinear_arith);
}

/// Multiplying by one changes nothing.
pub proof fn lemma_mul_one(a: Fixed)
    requires
        a@ >= -MAX_RAW,
    ensures
        a.spec_mul(Fixed::spec_one()) == a,
        Fixed::spec_one().spec_mul(a) == a,
{
    assert(a@ * ONE_RAW == ONE_RAW * a@) by (nonlinear_arith);
    assert(trunc_div(a@ * ONE_RAW, ONE_RAW as int) == a@) by (nonlinear_arith)
        requires
            ONE_RAW == 65536,
    ;
}

/// The square root of one is one.
pub proof fn lemma_sqrt_one()
    ensures
        Fixed::spec_one().spec_sqrt() == Fixed::spec_one(),
{
    assert(is_floor_sqrt(ONE_RAW * ONE_RAW, ONE_RAW as int)) by (nonlinear_arith)
        requires
            ONE_RAW == 65536,
    ;
    lemma_floor_sqrt_is(ONE_RAW * ONE_RAW, ONE_RAW as int);
}

} // verus!
