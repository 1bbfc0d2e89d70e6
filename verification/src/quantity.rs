//! Fixed-point physical quantities.
//!
//! Each quantity is an integer count of a small unit. The units are chosen so
//! that the products the engine needs are exact: one microwatt sustained for
//! one millisecond is one nanojoule.

use vstd::prelude::*;
use vstd::arithmetic::div_mod::{lemma_fundamental_div_mod, lemma_mod_bound};

verus! {

/// The ratio 1 (that is, 100 %), in parts per billion.
pub const RATIO_ONE: u64 = 1_000_000_000;

/// Quotient of `a` by `b`, rounded toward zero (`b` is not zero).
pub open spec fn trunc_div(a: int, b: int) -> int {
    if b > 0 {
        if a >= 0 {
            a / b
        } else {
            -((-a) / b)
        }
    } else {
        if a >= 0 {
            -(a / (-b))
        } else {
            (-a) / (-b)
        }
    }
}

/// The value in `lo ..= hi` that is nearest to `v`.
pub open spec fn clamp(v: int, lo: int, hi: int) -> int {
    if v < lo {
        lo
    } else if v > hi {
        hi
    } else {
        v
    }
}

/// `v` brought into the range of `i64`.
pub open spec fn clamp_i64(v: int) -> int {
    clamp(v, i64::MIN as int, i64::MAX as int)
}

/// `v` brought into the range of `u64`.
pub open spec fn clamp_u64(v: int) -> int {
    clamp(v, 0, u64::MAX as int)
}

/// The smaller of two integers.
pub open spec fn min_int(a: int, b: int) -> int {
    if a <= b {
        a
    } else {
        b
    }
}

/// The larger of two integers.
pub open spec fn max_int(a: int, b: int) -> int {
    if a >= b {
        a
    } else {
        b
    }
}

/// The magnitude of an integer.
pub open spec fn abs_int(a: int) -> int {
    if a >= 0 {
        a
    } else {
        -a
    }
}

/// `x` multiplied by the ratio `ppb` parts per billion, rounded toward zero.
pub open spec fn scaled(x: int, ppb: int) -> int {
    trunc_div(x * ppb, RATIO_ONE as int)
}

/// Scaling by a ratio of at most one never moves a value away from zero.
pub proof fn lemma_scaled_toward_zero(x: int, ppb: int)
    requires
        0 <= ppb <= RATIO_ONE,
    ensures
        x >= 0 ==> 0 <= scaled(x, ppb) <= x,
        x <= 0 ==> x <= scaled(x, ppb) <= 0,
        scaled(x, RATIO_ONE as int) == x,
        scaled(x, 0) == 0,
{
    let one: int = RATIO_ONE as int;
    if x >= 0 {
        assert(0 <= x * ppb <= x * one) by (nonlinear_arith)
            requires
                x >= 0,
                0 <= ppb <= one,
        ;
        assert((x * ppb) / one <= x) by (nonlinear_arith)
            requires
                0 <= x * ppb <= x * one,
                one > 0,
        ;
        assert(0 <= (x * ppb) / one) by (nonlinear_arith)
            requires
                0 <= x * ppb,
                one > 0,
        ;
    } else {
        assert(0 <= (-x) * ppb <= (-x) * one && (-x) * ppb == -(x * ppb)) by (nonlinear_arith)
            requires
                x < 0,
                0 <= ppb <= one,
        ;
        let m: int = -(x * ppb);
        assert(m / one <= -x) by (nonlinear_arith)
            requires
                0 <= m <= (-x) * one,
                one > 0,
        ;
        assert(0 <= m / one) by (nonlinear_arith)
            requires
                0 <= m,
                one > 0,
        ;
    }
    assert((x * one) / one == x && ((-x) * one) / one == -x && (-x) * one == -(x * one)) by (nonlinear_arith)
        requires
            one > 0,
    ;
    assert(x * 0 == 0) by (nonlinear_arith);
}

/// A quotient rounded toward zero is no larger in magnitude than what was
/// divided, and has its sign or is zero.
pub proof fn lemma_trunc_div_toward_zero(a: int, b: int)
    requires
        b > 0,
    ensures
        a >= 0 ==> 0 <= trunc_div(a, b) <= a,
        a <= 0 ==> a <= trunc_div(a, b) <= 0,
        trunc_div(a, -b) == -trunc_div(a, b),
        trunc_div(0, b) == 0,
{
    if a >= 0 {
        assert(0 <= a / b <= a) by (nonlinear_arith)
            requires
                a >= 0,
                b > 0,
        ;
    } else {
        assert(0 <= (-a) / b <= -a) by (nonlinear_arith)
            requires
                -a >= 0,
                b > 0,
        ;
    }
    assert(0int / b == 0) by (nonlinear_arith)
        requires
            b > 0,
    ;
}

/// Rounding a quotient toward zero loses less than one divisor.
pub proof fn lemma_trunc_div_remainder(a: int, b: int)
    requires
        b != 0,
    ensures
        abs_int(a - trunc_div(a, b) * b) < abs_int(b),
{
    let d = abs_int(b);
    let n = abs_int(a);
    lemma_fundamental_div_mod(n, d);
    lemma_mod_bound(n, d);
    let q = n / d;
    assert(n - q * d == n % d) by (nonlinear_arith)
        requires
            n == d * q + (n % d),
    ;
    assert((-q) * d == -(q * d) && (-q) * (-d) == q * d && q * (-d) == -(q * d))
        by (nonlinear_arith);
}

/// A product divided by one of its factors gives the other.
pub proof fn lemma_trunc_div_exact(q: int, b: int)
    requires
        b != 0,
    ensures
        trunc_div(q * b, b) == q,
{
    let a = q * b;
    if b > 0 {
        if a >= 0 {
            assert((q * b) / b == q) by (nonlinear_arith)
                requires
                    b > 0,
            ;
        } else {
            assert(-(q * b) == (-q) * b && ((-q) * b) / b == -q) by (nonlinear_arith)
                requires
                    b > 0,
            ;
        }
    } else {
        let c = -b;
        if a >= 0 {
            assert(q * b == (-q) * c && ((-q) * c) / c == -q) by (nonlinear_arith)
                requires
                    c > 0,
                    c == -b,
            ;
        } else {
            assert(-(q * b) == q * c && (q * c) / c == q) by (nonlinear_arith)
                requires
                    c > 0,
                    c == -b,
            ;
        }
    }
}

/// A dimensionless, non-negative ratio in parts per billion.
#[derive(Clone, Copy, Debug, PartialEq, Eq, Structural)]
pub struct Ratio {
    /// Parts per billion.
    pub ppb: u64,
}

/// A point on the mission clock, or a span between two such points, in
/// milliseconds. The clock starts at zero and never runs backward.
#[derive(Clone, Copy, Debug, PartialEq, Eq, Structural)]
pub struct Time {
    /// Milliseconds.
    pub millis: u64,
}

/// An amount of energy in nanojoules.
#[derive(Clone, Copy, Debug, PartialEq, Eq, Structural)]
pub struct Energy {
    /// Nanojoules.
    pub nanojoules: i64,
}

/// A frequency in microhertz.
#[derive(Clone, Copy, Debug, PartialEq, Eq, Structural)]
pub struct Frequency {
    /// Microhertz.
    pub microhertz: i64,
}

/// What every quantity offers: its magnitude as a mathematical integer, and
/// multiplication by a ratio.
pub trait Quantity: Sized {
    /// The magnitude in the quantity's unit.
    spec fn raw(self) -> int;

    /// The representable magnitude nearest to `v`.
    spec fn saturate(v: int) -> int;

    /// This quantity times `ratio`, rounded toward zero and brought into the
    /// representable range.
    fn scaled_by(self, ratio: Ratio) -> (r: Self)
        ensures
            r.raw() == Self::saturate(scaled(self.raw(), ratio.ppb as int)),
    ;

    /// Every magnitude between zero and a quantity's own is representable.
    proof fn lemma_saturate_toward_zero(self, v: int)
        requires
            0 <= v <= self.raw() || self.raw() <= v <= 0,
        ensures
            Self::saturate(v) == v,
    ;
}

/// The `i64` nearest to `v`.
pub fn saturate_i64(v: i128) -> (r: i64)
    ensures
        r == clamp_i64(v as int),
{
    if v > i64::MAX as i128 {
        i64::MAX
    } else if v < i64::MIN as i128 {
        i64::MIN
    } else {
        v as i64
    }
}

/// `x * ppb / RATIO_ONE` on signed magnitudes, rounded toward zero and
/// brought into the range of `i64`.
pub fn scale_signed(x: i64, ppb: u64) -> (r: i64)
    ensures
        r == clamp_i64(scaled(x as int, ppb as int)),
{
    assert(-0x7fff_ffff_ffff_ffff_ffff_ffff_ffff_ffff <= x * ppb
        <= 0x7fff_ffff_ffff_ffff_ffff_ffff_ffff_ffff) by (nonlinear_arith)
        requires
            -0x8000_0000_0000_0000 <= x <= 0x7fff_ffff_ffff_ffff,
            0 <= ppb <= 0xffff_ffff_ffff_ffff,
    ;
    let wide: i128 = (x as i128) * (ppb as i128);
    saturate_i64(wide / 1_000_000_000)
}

/// `x * ppb / RATIO_ONE` on unsigned magnitudes, rounded down and brought
/// into the range of `u64`.
pub fn scale_unsigned(x: u64, ppb: u64) -> (r: u64)
    ensures
        r == clamp_u64(scaled(x as int, ppb as int)),
{
    assert(0 <= x * ppb <= 0xffff_ffff_ffff_ffff_ffff_ffff_ffff_ffff) by (nonlinear_arith)
        requires
            0 <= x <= 0xffff_ffff_ffff_ffff,
            0 <= ppb <= 0xffff_ffff_ffff_ffff,
    ;
    let wide: u128 = (x as u128) * (ppb as u128);
    let q: u128 = wide / 1_000_000_000;
    if q > u64::MAX as u128 {
        u64::MAX
    } else {
        q as u64
    }
}

impl Ratio {
    /// The ratio of `ppb` parts per billion.
    pub fn new(ppb: u64) -> (r: Ratio)
        ensures
            r.ppb == ppb,
    {
        Ratio { ppb }
    }

    /// The ratio 0.
    pub fn zero() -> (r: Ratio)
        ensures
            r.ppb == 0,
    {
        Ratio { ppb: 0 }
    }

    /// The ratio 1.
    pub fn one() -> (r: Ratio)
        ensures
            r.ppb == RATIO_ONE,
    {
        Ratio { ppb: RATIO_ONE }
    }
}

impl Time {
    /// The time `millis` milliseconds after the start of the mission.
    pub fn new(millis: u64) -> (r: Time)
        ensures
            r.millis == millis,
    {
        Time { millis }
    }

    /// This time moved later by `span`; the clock stops at its last
    /// representable instant.
    pub fn saturating_add(self, span: Time) -> (r: Time)
        ensures
            r.millis == clamp_u64(self.millis + span.millis),
    {
        Time { millis: self.millis.saturating_add(span.millis) }
    }

    /// The span from `earlier` to this time, zero where `earlier` is not
    /// earlier.
    pub fn saturating_sub(self, earlier: Time) -> (r: Time)
        ensures
            r.millis == clamp_u64(self.millis - earlier.millis),
    {
        Time { millis: self.millis.saturating_sub(earlier.millis) }
    }
}

impl Energy {
    /// The energy of `nanojoules` nanojoules.
    pub fn new(nanojoules: i64) -> (r: Energy)
        ensures
            r.nanojoules == nanojoules,
    {
        Energy { nanojoules }
    }
}

impl Frequency {
    /// The frequency of `microhertz` microhertz.
    pub fn new(microhertz: i64) -> (r: Frequency)
        ensures
            r.microhertz == microhertz,
    {
        Frequency { microhertz }
    }
}

impl Quantity for Time {
    open spec fn raw(self) -> int {
        self.millis as int
    }

    open spec fn saturate(v: int) -> int {
        clamp_u64(v)
    }

    fn scaled_by(self, ratio: Ratio) -> (r: Self) {
        Time { millis: scale_unsigned(self.millis, ratio.ppb) }
    }

    proof fn lemma_saturate_toward_zero(self, v: int) {
    }
}

impl Quantity for Energy {
    open spec fn raw(self) -> int {
        self.nanojoules as int
    }

    open spec fn saturate(v: int) -> int {
        clamp_i64(v)
    }

    fn scaled_by(self, ratio: Ratio) -> (r: Self) {
        Energy { nanojoules: scale_signed(self.nanojoules, ratio.ppb) }
    }

    proof fn lemma_saturate_toward_zero(self, v: int) {
    }
}

impl Quantity for Frequency {
    open spec fn raw(self) -> int {
        self.microhertz as int
    }

    open spec fn saturate(v: int) -> int {
        clamp_i64(v)
    }

    fn scaled_by(self, ratio: Ratio) -> (r: Self) {
        Frequency { microhertz: scale_signed(self.microhertz, ratio.ppb) }
    }

    proof fn lemma_saturate_toward_zero(self, v: int) {
    }
}

} // verus!
