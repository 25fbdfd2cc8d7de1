//! The statistics of a peer, taken from its register sorted by delay.

use crate::duration::{saturate, saturate_i64, NtpDuration};
use crate::register::LastMeasurements;
use crate::root::{floor_sqrt, integer_sqrt};
use crate::sample::FilterTuple;
use crate::sorting::{ascending, stable_sort, stable_sorted, Keyed};
use vstd::arithmetic::power2::{lemma2_to64, pow2};
use vstd::prelude::*;

verus! {

impl Keyed for FilterTuple {
    /// Measurements are ordered by their delay.
    open spec fn key(&self) -> int {
        self.delay@
    }

    fn sort_key(&self) -> (k: i64) {
        self.delay.to_fixed_int()
    }
}

/// The number of measurements in front of the dummies that `s` ends with.
pub open spec fn valid_count(s: Seq<FilterTuple>) -> nat
    decreases s.len(),
{
    if s.len() == 0 {
        0
    } else if s.last() == FilterTuple::dummy_value() {
        valid_count(s.drop_last())
    } else {
        s.len()
    }
}

/// The dispersions of the first `n` measurements of `s`, each counting half as much as
/// the one before it: the first by a half, the second by a quarter, and so on.
pub open spec fn weighted_dispersion(s: Seq<FilterTuple>, n: nat) -> NtpDuration
    decreases n,
{
    if n == 0 {
        NtpDuration::of(0)
    } else {
        weighted_dispersion(s, (n - 1) as nat).plus(
            s[n - 1].dispersion.over(pow2(n) as int),
        )
    }
}

/// The squares of the distances of the offsets in `valid` from the offset of `best`, added
/// up.
pub open spec fn squared_spread(valid: Seq<FilterTuple>, best: FilterTuple) -> nat
    decreases valid.len(),
{
    if valid.len() == 0 {
        0
    } else {
        let distance = valid.last().offset.minus(best.offset)@;
        squared_spread(valid.drop_last(), best) + (distance * distance) as nat
    }
}

/// `total`, or the largest `u128` where `total` is beyond it.
pub open spec fn held_u128(total: nat) -> nat {
    if total > u128::MAX {
        u128::MAX as nat
    } else {
        total
    }
}

/// The jitter of the measurements `valid` about `best`: the root of the squared spread,
/// divided by the number of measurements other than `best`, and not below the precision
/// of the system's clock. The squared spread is held at the largest `u128`, the quotient at
/// the largest duration.
pub open spec fn jitter_of(
    valid: Seq<FilterTuple>,
    best: FilterTuple,
    system_precision: NtpDuration,
) -> NtpDuration {
    let root = floor_sqrt(held_u128(squared_spread(valid, best)));
    let others: int = if valid.len() > 1 {
        valid.len() - 1
    } else {
        1
    };
    NtpDuration::of(saturate_i64(root as int / others)).at_least(system_precision)
}

/// A copy of the register in ascending order of delay.
#[derive(Clone, Copy, Debug)]
pub struct TemporaryList {
    pub register: [FilterTuple; 8],
}

impl View for TemporaryList {
    type V = Seq<FilterTuple>;

    /// The eight measurements, in the order of the list.
    open spec fn view(&self) -> Seq<FilterTuple> {
        self.register@
    }
}

impl TemporaryList {
    /// A list of eight dummies.
    pub fn new() -> (r: Self)
        ensures
            r@ == Seq::new(8, |i: int| FilterTuple::dummy_value()),
            ascending(r@),
    {
        let dummy = FilterTuple::dummy();
        let r = TemporaryList { register: [dummy; 8] };
        proof {
            vstd::array::axiom_spec_array_fill_for_copy_type::<FilterTuple, 8>(dummy);
        }
        r
    }

    /// The measurements of `source`, sorted by delay. Where two delays are equal the newer
    /// measurement comes first. The dummies, whose delay is sixteen seconds, come behind
    /// every measurement with a smaller delay.
    pub fn from_clock_filter_contents(source: &LastMeasurements) -> (r: Self)
        ensures
            r@ == stable_sorted(source@),
            ascending(r@),
            r@.to_multiset() == source@.to_multiset(),
    {
        let sorted = stable_sort(source.register.as_slice());
        proof {
            crate::sorting::lemma_stable_sorted(source@);
        }
        let mut register = source.register;
        let mut i: usize = 0;
        while i < 8
            invariant
                i <= 8,
                sorted@.len() == 8,
                forall|j: int| 0 <= j < i ==> register@[j] == sorted@[j],
            decreases 8 - i,
        {
            register[i] = sorted[i];
            i = i + 1;
        }
        TemporaryList { register }
    }

    /// The first measurement of the list: in a sorted list, one of smallest delay.
    pub fn smallest_delay(&self) -> (r: &FilterTuple)
        ensures
            *r == self@[0],
            ascending(self@) ==> forall|i: int| 0 <= i < 8 ==> r.delay@ <= (#[trigger] self@[i]).delay@,
    {
        &self.register[0]
    }

    /// The measurements in front of the dummies that the list ends with.
    pub fn valid_tuples(&self) -> (r: &[FilterTuple])
        ensures
            r@ == self@.take(valid_count(self@) as int),
    {
        let mut num_valid_tuples: usize = 8;
        assert(self@.take(8) =~= self@);
        while num_valid_tuples > 0 && self.register[num_valid_tuples - 1].is_dummy()
            invariant
                num_valid_tuples <= 8,
                valid_count(self@) == valid_count(self@.take(num_valid_tuples as int)),
            decreases num_valid_tuples,
        {
            assert(self@.take(num_valid_tuples as int).drop_last() =~= self@.take(
                num_valid_tuples - 1,
            ));
            num_valid_tuples = num_valid_tuples - 1;
        }
        let all = self.register.as_slice();
        let valid = vstd::slice::slice_subrange(all, 0, num_valid_tuples);
        valid
    }

    /// The dispersion of the peer: the dispersions of the list, the first counting by a
    /// half, the second by a quarter, down to the eighth.
    pub fn dispersion(&self) -> (r: NtpDuration)
        ensures
            r == weighted_dispersion(self@, 8),
    {
        let mut total = NtpDuration::zero();
        let mut weight: i64 = 1;
        let mut i: usize = 0;
        proof {
            lemma2_to64();
        }
        while i < 8
            invariant
                i <= 8,
                weight == pow2(i as nat),
                1 <= weight <= 256,
                total == weighted_dispersion(self@, i as nat),
            decreases 8 - i,
        {
            proof {
                lemma2_to64();
            }
            weight = weight * 2;
            total = total + self.register[i].dispersion / weight;
            i = i + 1;
        }
        total
    }

    /// The jitter of the offsets of the list about the offset of `smallest_delay`.
    pub fn jitter(&self, smallest_delay: FilterTuple, system_precision: NtpDuration) -> (r:
        NtpDuration)
        ensures
            r == jitter_of(
                self@.take(valid_count(self@) as int),
                smallest_delay,
                system_precision,
            ),
            r@ >= system_precision@,
    {
        Self::jitter_help(self.valid_tuples(), smallest_delay, system_precision)
    }

    /// The jitter of the offsets of `valid_tuples` about the offset of `smallest_delay`.
    pub fn jitter_help(
        valid_tuples: &[FilterTuple],
        smallest_delay: FilterTuple,
        system_precision: NtpDuration,
    ) -> (r: NtpDuration)
        ensures
            r == jitter_of(valid_tuples@, smallest_delay, system_precision),
            r@ >= system_precision@,
    {
        let mut sum: u128 = 0;
        let mut i: usize = 0;
        while i < valid_tuples.len()
            invariant
                i <= valid_tuples.len(),
                sum == held_u128(squared_spread(valid_tuples@.take(i as int), smallest_delay)),
            decreases valid_tuples.len() - i,
        {
            let distance: i64 = (valid_tuples[i].offset - smallest_delay.offset).to_fixed_int();
            let magnitude: u128 = if distance < 0 {
                (-(distance as i128)) as u128
            } else {
                distance as u128
            };
            assert(magnitude * magnitude <= 0x8000_0000_0000_0000 * 0x8000_0000_0000_0000
                && magnitude * magnitude == distance * distance) by (nonlinear_arith)
                requires
                    0 <= magnitude <= 0x8000_0000_0000_0000,
                    magnitude == distance || magnitude == -distance,
            ;
            let square: u128 = magnitude * magnitude;
            sum = match sum.checked_add(square) {
                Some(s) => s,
                None => u128::MAX,
            };
            proof {
                assert(valid_tuples@.take(i + 1).drop_last() =~= valid_tuples@.take(i as int));
            }
            i = i + 1;
        }
        assert(valid_tuples@.take(valid_tuples.len() as int) =~= valid_tuples@);
        let root: u64 = integer_sqrt(sum);
        let others: u64 = if valid_tuples.len() > 1 {
            (valid_tuples.len() - 1) as u64
        } else {
            1
        };
        let jitter = NtpDuration::from_fixed_int(saturate((root / others) as i128));
        // the jitter is kept at the precision of the system's clock or above
        jitter.max(system_precision)
    }
}

} // verus!
