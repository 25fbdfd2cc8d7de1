//! Signed fixed-point durations with 32 fractional bits.
//!
//! Sums, differences and products saturate at the ends of the range, so that two large
//! durations never cancel by accident. Quotients round towards zero.

use core::cmp::Ordering;
use vstd::arithmetic::power2::{lemma2_to64, lemma2_to64_rest, lemma_pow2_unfold, pow2};
use vstd::prelude::*;

verus! {

/// The number of duration units in one second.
pub const UNITS_PER_SECOND: i64 = 0x1_0000_0000;

/// Sixteen seconds: the dispersion of a slot that holds no measurement.
pub const MAX_DISPERSION_UNITS: i64 = 0x10_0000_0000;

/// One millisecond, rounded down: the least delay that enters a root distance.
pub const MIN_DISPERSION_UNITS: i64 = 4_294_967;

/// The value nearest to `v` that an `i64` can hold.
pub open spec fn saturate_i64(v: int) -> int {
    if v > i64::MAX {
        i64::MAX as int
    } else if v < i64::MIN {
        i64::MIN as int
    } else {
        v
    }
}

/// The quotient of `x` by `d`, rounded towards zero; `0` where `d` is `0`.
pub open spec fn trunc_div(x: int, d: int) -> int {
    if d == 0 {
        0
    } else if x >= 0 && d > 0 {
        x / d
    } else if x < 0 && d < 0 {
        (-x) / (-d)
    } else if x < 0 {
        -((-x) / d)
    } else {
        -(x / (-d))
    }
}

/// The units in `2^e` seconds: the largest duration above `2^30` seconds, nothing below
/// one unit.
pub open spec fn exponent_units(e: int) -> int {
    if e > 30 {
        i64::MAX as int
    } else if e >= -32 {
        pow2((32 + e) as nat) as int
    } else {
        0
    }
}

/// Brings a wide intermediate result back into an `i64`.
pub fn saturate(v: i128) -> (r: i64)
    ensures
        r == saturate_i64(v as int),
{
    if v > i64::MAX as i128 {
        i64::MAX
    } else if v < i64::MIN as i128 {
        i64::MIN
    } else {
        v as i64
    }
}

/// A signed span of time in units of 2^-32 seconds.
#[derive(Clone, Copy, Debug, PartialEq, Eq, Structural)]
pub struct NtpDuration {
    pub duration: i64,
}

impl View for NtpDuration {
    type V = int;

    /// The number of units.
    open spec fn view(&self) -> int {
        self.duration as int
    }
}

impl Default for NtpDuration {
    fn default() -> (r: Self)
        ensures
            r@ == 0,
    {
        NtpDuration { duration: 0 }
    }
}

impl NtpDuration {
    /// The duration of `v` units, for `v` in the range of an `i64`.
    pub open spec fn of(v: int) -> NtpDuration {
        NtpDuration { duration: v as i64 }
    }

    /// The saturating sum.
    pub open spec fn plus(self, rhs: NtpDuration) -> NtpDuration {
        NtpDuration::of(saturate_i64(self@ + rhs@))
    }

    /// The saturating difference.
    pub open spec fn minus(self, rhs: NtpDuration) -> NtpDuration {
        NtpDuration::of(saturate_i64(self@ - rhs@))
    }

    /// The saturating product with a whole number.
    pub open spec fn times(self, factor: int) -> NtpDuration {
        NtpDuration::of(saturate_i64(self@ * factor))
    }

    /// The quotient by a whole number, rounded towards zero.
    pub open spec fn over(self, divisor: int) -> NtpDuration {
        NtpDuration::of(trunc_div(self@, divisor))
    }

    /// The larger of the two.
    pub open spec fn at_least(self, floor: NtpDuration) -> NtpDuration {
        if self@ >= floor@ {
            self
        } else {
            floor
        }
    }

    /// The smaller of the two.
    pub open spec fn at_most(self, ceiling: NtpDuration) -> NtpDuration {
        if self@ <= ceiling@ {
            self
        } else {
            ceiling
        }
    }

    /// `2^e` seconds.
    pub open spec fn exponent(e: int) -> NtpDuration {
        NtpDuration::of(exponent_units(e))
    }

    pub fn zero() -> (r: Self)
        ensures
            r@ == 0,
    {
        NtpDuration { duration: 0 }
    }

    pub fn one() -> (r: Self)
        ensures
            r@ == UNITS_PER_SECOND,
    {
        NtpDuration { duration: UNITS_PER_SECOND }
    }

    pub fn max_dispersion() -> (r: Self)
        ensures
            r@ == MAX_DISPERSION_UNITS,
    {
        NtpDuration { duration: MAX_DISPERSION_UNITS }
    }

    pub fn min_dispersion() -> (r: Self)
        ensures
            r@ == MIN_DISPERSION_UNITS,
    {
        NtpDuration { duration: MIN_DISPERSION_UNITS }
    }

    pub fn from_fixed_int(duration: i64) -> (r: Self)
        ensures
            r@ == duration,
    {
        NtpDuration { duration }
    }

    pub fn to_fixed_int(self) -> (r: i64)
        ensures
            r == self@,
    {
        self.duration
    }

    /// The whole seconds, rounded down, and the nanoseconds beyond them.
    pub fn as_seconds_nanos(self) -> (r: (i32, u32))
        ensures
            r.0 == self@ / 0x1_0000_0000,
            r.1 == ((self@ % 0x1_0000_0000) * 1_000_000_000) / 0x1_0000_0000,
    {
        let wide: i128 = self.duration as i128;
        let mut seconds: i128 = wide / 0x1_0000_0000;
        let mut fraction: i128 = wide % 0x1_0000_0000;
        if fraction < 0 {
            seconds = seconds - 1;
            fraction = fraction + 0x1_0000_0000;
        }
        let nanos: i128 = (fraction * 1_000_000_000) / 0x1_0000_0000;
        (seconds as i32, nanos as u32)
    }

    /// `2^input` seconds.
    pub fn from_exponent(input: i8) -> (r: Self)
        ensures
            r == Self::exponent(input as int),
    {
        if input > 30 {
            NtpDuration { duration: i64::MAX }
        } else if input < -32 {
            NtpDuration { duration: 0 }
        } else {
            let doublings: u8 = (32 + input as i16) as u8;
            let mut units: i64 = 1;
            let mut done: u8 = 0;
            proof {
                lemma2_to64();
            }
            while done < doublings
                invariant
                    done <= doublings <= 62,
                    units == pow2(done as nat),
                    units <= 0x4000_0000_0000_0000,
                    done < doublings ==> units < 0x4000_0000_0000_0000,
                decreases doublings - done,
            {
                proof {
                    lemma_pow2_unfold((done + 1) as nat);
                    lemma_pow2_bound_62((done + 1) as nat);
                }
                units = units * 2;
                done = done + 1;
            }
            NtpDuration { duration: units }
        }
    }

    /// The larger of the two.
    pub fn max(self, other: Self) -> (r: Self)
        ensures
            r == self.at_least(other),
    {
        if self.duration >= other.duration {
            self
        } else {
            other
        }
    }

    /// The smaller of the two.
    pub fn min(self, other: Self) -> (r: Self)
        ensures
            r == self.at_most(other),
    {
        if self.duration <= other.duration {
            self
        } else {
            other
        }
    }

    /// The product with a whole number.
    pub fn multiply_by(self, factor: i64) -> (r: Self)
        ensures
            r == self.times(factor as int),
    {
        proof {
            lemma_product_fits(self.duration, factor);
        }
        let wide: i128 = (self.duration as i128) * (factor as i128);
        NtpDuration { duration: saturate(wide) }
    }

    /// The quotient by a whole number other than zero.
    pub fn divided_by(self, divisor: i64) -> (r: Self)
        requires
            divisor != 0,
            !(self@ == i64::MIN && divisor == -1),
        ensures
            r == self.over(divisor as int),
    {
        match self.duration.checked_div(divisor) {
            Some(q) => NtpDuration { duration: q },
            None => {
                proof {
                    lemma_trunc_div_fits(self.duration, divisor);
                }
                NtpDuration { duration: 0 }
            },
        }
    }
}

/// Powers of two up to the sixty-second stay below `2^63`.
proof fn lemma_pow2_bound_62(e: nat)
    requires
        e <= 62,
    ensures
        pow2(e) <= 0x4000_0000_0000_0000,
        e < 62 ==> pow2(e) < 0x4000_0000_0000_0000,
    decreases 62 - e,
{
    lemma2_to64_rest();
    if e < 62 {
        lemma_pow2_bound_62(e + 1);
        lemma_pow2_unfold(e + 1);
    }
}

/// The product of two `i64` values fits in an `i128`.
proof fn lemma_product_fits(a: i64, b: i64)
    ensures
        i128::MIN <= a * b <= i128::MAX,
{
    assert(-0x4000_0000_0000_0000_0000_0000_0000_0000 <= a * b
        <= 0x4000_0000_0000_0000_0000_0000_0000_0000) by (nonlinear_arith)
        requires
            -0x8000_0000_0000_0000 <= a <= 0x8000_0000_0000_0000,
            -0x8000_0000_0000_0000 <= b <= 0x8000_0000_0000_0000,
    ;
}

/// A quotient rounded towards zero leaves the range of an `i64` only for the least value
/// divided by minus one.
proof fn lemma_trunc_div_fits(x: i64, d: i64)
    requires
        d != 0,
        !(x == i64::MIN && d == -1),
    ensures
        i64::MIN <= trunc_div(x as int, d as int) <= i64::MAX,
{
    let xi = x as int;
    let di = d as int;
    if xi >= 0 && di > 0 {
        assert(0 <= xi / di <= xi) by (nonlinear_arith)
            requires
                xi >= 0,
                di > 0,
        ;
    } else if xi < 0 && di < 0 {
        if di == -1 {
        } else {
            assert(0 <= (-xi) / (-di) < -xi) by (nonlinear_arith)
                requires
                    -xi > 0,
                    -di > 1,
            ;
        }
    } else if xi < 0 {
        assert(0 <= (-xi) / di <= -xi) by (nonlinear_arith)
            requires
                -xi > 0,
                di > 0,
        ;
    } else {
        assert(0 <= xi / (-di) <= xi) by (nonlinear_arith)
            requires
                xi >= 0,
                -di > 0,
        ;
    }
}

impl core::ops::Add for NtpDuration {
    type Output = NtpDuration;

    fn add(self, rhs: NtpDuration) -> (r: NtpDuration) {
        let wide: i128 = self.duration as i128 + rhs.duration as i128;
        NtpDuration { duration: saturate(wide) }
    }
}

impl vstd::std_specs::ops::AddSpecImpl for NtpDuration {
    open spec fn obeys_add_spec() -> bool {
        true
    }

    open spec fn add_req(self, rhs: NtpDuration) -> bool {
        true
    }

    open spec fn add_spec(self, rhs: NtpDuration) -> NtpDuration {
        self.plus(rhs)
    }
}

impl core::ops::Sub for NtpDuration {
    type Output = NtpDuration;

    fn sub(self, rhs: NtpDuration) -> (r: NtpDuration) {
        let wide: i128 = self.duration as i128 - rhs.duration as i128;
        NtpDuration { duration: saturate(wide) }
    }
}

impl vstd::std_specs::ops::SubSpecImpl for NtpDuration {
    open spec fn obeys_sub_spec() -> bool {
        true
    }

    open spec fn sub_req(self, rhs: NtpDuration) -> bool {
        true
    }

    open spec fn sub_spec(self, rhs: NtpDuration) -> NtpDuration {
        self.minus(rhs)
    }
}

impl core::ops::Mul<i64> for NtpDuration {
    type Output = NtpDuration;

    fn mul(self, rhs: i64) -> (r: NtpDuration) {
        self.multiply_by(rhs)
    }
}

impl vstd::std_specs::ops::MulSpecImpl<i64> for NtpDuration {
    open spec fn obeys_mul_spec() -> bool {
        true
    }

    open spec fn mul_req(self, rhs: i64) -> bool {
        true
    }

    open spec fn mul_spec(self, rhs: i64) -> NtpDuration {
        self.times(rhs as int)
    }
}

impl core::ops::Div<i64> for NtpDuration {
    type Output = NtpDuration;

    fn div(self, rhs: i64) -> (r: NtpDuration) {
        self.divided_by(rhs)
    }
}

impl vstd::std_specs::ops::DivSpecImpl<i64> for NtpDuration {
    open spec fn obeys_div_spec() -> bool {
        true
    }

    open spec fn div_req(self, rhs: i64) -> bool {
        rhs != 0 && !(self@ == i64::MIN && rhs == -1)
    }

    open spec fn div_spec(self, rhs: i64) -> NtpDuration {
        self.over(rhs as int)
    }
}

impl PartialOrd for NtpDuration {
    fn partial_cmp(&self, other: &NtpDuration) -> (r: Option<Ordering>) {
        if self.duration < other.duration {
            Some(Ordering::Less)
        } else if self.duration > other.duration {
            Some(Ordering::Greater)
        } else {
            Some(Ordering::Equal)
        }
    }
}

impl vstd::std_specs::cmp::PartialOrdSpecImpl for NtpDuration {
    open spec fn obeys_partial_cmp_spec() -> bool {
        true
    }

    open spec fn partial_cmp_spec(&self, other: &NtpDuration) -> Option<Ordering> {
        if self.duration < other.duration {
            Some(Ordering::Less)
        } else if self.duration > other.duration {
            Some(Ordering::Greater)
        } else {
            Some(Ordering::Equal)
        }
    }
}

} // verus!
