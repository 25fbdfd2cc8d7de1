//! Unsigned fixed-point timestamps with 32 fractional bits.
//!
//! A timestamp counts units of 2^-32 seconds within one era of 2^32 seconds. Arithmetic on
//! timestamps wraps at the end of the era; telling eras apart is left to the caller.

use crate::duration::NtpDuration;
use core::cmp::Ordering;
use vstd::prelude::*;

verus! {

/// The number of timestamp units in one era.
pub open spec fn era_units() -> int {
    0x1_0000_0000_0000_0000
}

/// The signed difference `a - b` of two positions within an era, taken the short way
/// round.
pub open spec fn wrapping_difference(a: int, b: int) -> int {
    let d = a - b;
    if d >= 0x8000_0000_0000_0000 {
        d - era_units()
    } else if d < -0x8000_0000_0000_0000 {
        d + era_units()
    } else {
        d
    }
}

/// The position `d` units after `t`, brought back into the era.
pub open spec fn wrapping_offset(t: int, d: int) -> int {
    let s = t + d;
    if s >= era_units() {
        s - era_units()
    } else if s < 0 {
        s + era_units()
    } else {
        s
    }
}

/// The number that eight bytes spell, the first byte counting most.
pub open spec fn big_endian_value(bits: Seq<u8>) -> int {
    bits[0] * 0x100_0000_0000_0000 + bits[1] * 0x1_0000_0000_0000 + bits[2] * 0x100_0000_0000
        + bits[3] * 0x1_0000_0000 + bits[4] * 0x100_0000 + bits[5] * 0x1_0000 + bits[6] * 0x100
        + bits[7]
}

/// The units that `seconds` whole seconds and `nanos` nanoseconds make.
pub open spec fn seconds_nanos_units(seconds: int, nanos: int) -> int {
    seconds * 0x1_0000_0000 + (nanos * 0x1_0000_0000) / 1_000_000_000
}

/// A point in time in units of 2^-32 seconds since the start of the era.
#[derive(Clone, Copy, Debug, PartialEq, Eq, Structural)]
pub struct NtpTimestamp {
    pub timestamp: u64,
}

impl View for NtpTimestamp {
    type V = int;

    /// The number of units since the start of the era.
    open spec fn view(&self) -> int {
        self.timestamp as int
    }
}

impl Default for NtpTimestamp {
    fn default() -> (r: Self)
        ensures
            r@ == 0,
    {
        NtpTimestamp { timestamp: 0 }
    }
}

impl NtpTimestamp {
    /// The timestamp `v` units into the era, for `v` in the range of a `u64`.
    pub open spec fn of(v: int) -> NtpTimestamp {
        NtpTimestamp { timestamp: v as u64 }
    }

    /// The time from `earlier` to this timestamp, taken the short way round the era.
    pub open spec fn since(self, earlier: NtpTimestamp) -> NtpDuration {
        NtpDuration::of(wrapping_difference(self@, earlier@))
    }

    /// The timestamp `d` later, wrapped at the end of the era.
    pub open spec fn after(self, d: NtpDuration) -> NtpTimestamp {
        NtpTimestamp::of(wrapping_offset(self@, d@))
    }

    pub fn zero() -> (r: Self)
        ensures
            r@ == 0,
    {
        NtpTimestamp { timestamp: 0 }
    }

    pub fn from_fixed_int(timestamp: u64) -> (r: Self)
        ensures
            r@ == timestamp,
    {
        NtpTimestamp { timestamp }
    }

    pub fn to_fixed_int(self) -> (r: u64)
        ensures
            r == self@,
    {
        self.timestamp
    }

    /// The timestamp that eight bytes in network order spell.
    pub fn from_bits(bits: [u8; 8]) -> (r: Self)
        ensures
            r@ == big_endian_value(bits@),
    {
        let timestamp: u64 = (bits[0] as u64) * 0x100_0000_0000_0000 + (bits[1] as u64)
            * 0x1_0000_0000_0000 + (bits[2] as u64) * 0x100_0000_0000 + (bits[3] as u64)
            * 0x1_0000_0000 + (bits[4] as u64) * 0x100_0000 + (bits[5] as u64) * 0x1_0000 + (
        bits[6] as u64) * 0x100 + (bits[7] as u64);
        NtpTimestamp { timestamp }
    }

    /// The timestamp `seconds` whole seconds and `nanos` nanoseconds into the era.
    pub fn from_seconds_nanos_since_ntp_era(seconds: u32, nanos: u32) -> (r: Self)
        requires
            nanos < 1_000_000_000,
        ensures
            r@ == seconds_nanos_units(seconds as int, nanos as int),
    {
        let fraction: u64 = ((nanos as u64) * 0x1_0000_0000) / 1_000_000_000;
        let timestamp: u64 = (seconds as u64) * 0x1_0000_0000 + fraction;
        NtpTimestamp { timestamp }
    }
}

impl core::ops::Sub for NtpTimestamp {
    type Output = NtpDuration;

    fn sub(self, rhs: NtpTimestamp) -> (r: NtpDuration) {
        let d: i128 = self.timestamp as i128 - rhs.timestamp as i128;
        let short: i128 = if d >= 0x8000_0000_0000_0000 {
            d - 0x1_0000_0000_0000_0000
        } else if d < -0x8000_0000_0000_0000 {
            d + 0x1_0000_0000_0000_0000
        } else {
            d
        };
        NtpDuration { duration: short as i64 }
    }
}

impl vstd::std_specs::ops::SubSpecImpl for NtpTimestamp {
    open spec fn obeys_sub_spec() -> bool {
        true
    }

    open spec fn sub_req(self, rhs: NtpTimestamp) -> bool {
        true
    }

    open spec fn sub_spec(self, rhs: NtpTimestamp) -> NtpDuration {
        self.since(rhs)
    }
}

impl core::ops::Add<NtpDuration> for NtpTimestamp {
    type Output = NtpTimestamp;

    fn add(self, rhs: NtpDuration) -> (r: NtpTimestamp) {
        let s: i128 = self.timestamp as i128 + rhs.duration as i128;
        let within: i128 = if s >= 0x1_0000_0000_0000_0000 {
            s - 0x1_0000_0000_0000_0000
        } else if s < 0 {
            s + 0x1_0000_0000_0000_0000
        } else {
            s
        };
        NtpTimestamp { timestamp: within as u64 }
    }
}

impl vstd::std_specs::ops::AddSpecImpl<NtpDuration> for NtpTimestamp {
    open spec fn obeys_add_spec() -> bool {
        true
    }

    open spec fn add_req(self, rhs: NtpDuration) -> bool {
        true
    }

    open spec fn add_spec(self, rhs: NtpDuration) -> NtpTimestamp {
        self.after(rhs)
    }
}

impl PartialOrd for NtpTimestamp {
    fn partial_cmp(&self, other: &NtpTimestamp) -> (r: Option<Ordering>) {
        if self.timestamp < other.timestamp {
            Some(Ordering::Less)
        } else if self.timestamp > other.timestamp {
            Some(Ordering::Greater)
        } else {
            Some(Ordering::Equal)
        }
    }
}

impl vstd::std_specs::cmp::PartialOrdSpecImpl for NtpTimestamp {
    open spec fn obeys_partial_cmp_spec() -> bool {
        true
    }

    open spec fn partial_cmp_spec(&self, other: &NtpTimestamp) -> Option<Ordering> {
        if self.timestamp < other.timestamp {
            Some(Ordering::Less)
        } else if self.timestamp > other.timestamp {
            Some(Ordering::Greater)
        } else {
            Some(Ordering::Equal)
        }
    }
}

} // verus!
