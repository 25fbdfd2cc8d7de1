//! The shift register of the eight latest measurements of one peer.

use crate::duration::NtpDuration;
use crate::sample::FilterTuple;
use vstd::prelude::*;

verus! {

/// The number of measurements that the register keeps.
pub const REGISTER_SIZE: usize = 8;

impl FilterTuple {
    /// This measurement after the time that adds `correction` to its dispersion has
    /// passed. A dummy does not age: it would no longer be a dummy.
    pub open spec fn aged(self, correction: NtpDuration) -> FilterTuple {
        if self == FilterTuple::dummy_value() {
            self
        } else {
            FilterTuple {
                offset: self.offset,
                delay: self.delay,
                dispersion: self.dispersion.plus(correction),
                time: self.time,
            }
        }
    }

    /// This measurement after each of the insertions `later`, first to last, has aged it.
    pub open spec fn aged_by_all(self, later: Seq<(FilterTuple, NtpDuration)>) -> FilterTuple
        decreases later.len(),
    {
        if later.len() == 0 {
            self
        } else {
            self.aged_by_all(later.drop_last()).aged(later.last().1)
        }
    }

    /// Whether both were measured at the same time with the same offset and delay.
    pub open spec fn same_measurement(self, other: FilterTuple) -> bool {
        &&& self.offset == other.offset
        &&& self.delay == other.delay
        &&& self.time == other.time
    }
}

/// The register after `sample` has entered it: `sample` in slot 0, and in each later slot
/// what the slot before it held, aged by `correction`. What slot 7 held is gone.
pub open spec fn shifted(
    register: Seq<FilterTuple>,
    sample: FilterTuple,
    correction: NtpDuration,
) -> Seq<FilterTuple> {
    Seq::new(
        8,
        |i: int|
            if i == 0 {
                sample
            } else {
                register[i - 1].aged(correction)
            },
    )
}

/// The register after each of `samples`, first to last, has entered it with its
/// correction.
pub open spec fn shifted_by_all(
    register: Seq<FilterTuple>,
    samples: Seq<(FilterTuple, NtpDuration)>,
) -> Seq<FilterTuple>
    decreases samples.len(),
{
    if samples.len() == 0 {
        register
    } else {
        shifted(shifted_by_all(register, samples.drop_last()), samples.last().0, samples.last().1)
    }
}

/// The eight latest measurements, the newest in slot 0. A slot that was never filled holds
/// the dummy.
#[derive(Clone, Copy, Debug)]
pub struct LastMeasurements {
    pub register: [FilterTuple; 8],
}

impl View for LastMeasurements {
    type V = Seq<FilterTuple>;

    /// The eight slots, newest first.
    open spec fn view(&self) -> Seq<FilterTuple> {
        self.register@
    }
}

impl Default for LastMeasurements {
    fn default() -> (r: Self)
        ensures
            r@ == Seq::new(8, |i: int| FilterTuple::dummy_value()),
    {
        Self::new()
    }
}

impl LastMeasurements {
    /// A register of eight dummies.
    pub fn new() -> (r: Self)
        ensures
            r@ == Seq::new(8, |i: int| FilterTuple::dummy_value()),
    {
        let dummy = FilterTuple::dummy();
        let r = LastMeasurements { register: [dummy; 8] };
        proof {
            vstd::array::axiom_spec_array_fill_for_copy_type::<FilterTuple, 8>(dummy);
        }
        r
    }

    /// Puts the new measurement in slot 0 and moves every other one slot on; the oldest is
    /// dropped. The measurements that move on age by `dispersion_correction`.
    pub fn shift_and_insert(&mut self, current: FilterTuple, dispersion_correction: NtpDuration)
        ensures
            final(self)@ == shifted(old(self)@, current, dispersion_correction),
    {
        let mut carried = current;
        let mut i: usize = 0;
        while i < 8
            invariant
                i <= 8,
                self.register@.len() == 8,
                forall|j: int|
                    0 <= j < i ==> self.register@[j] == shifted(
                        old(self)@,
                        current,
                        dispersion_correction,
                    )[j],
                forall|j: int| i <= j < 8 ==> self.register@[j] == old(self).register@[j],
                i < 8 ==> carried == shifted(old(self)@, current, dispersion_correction)[i as int],
            decreases 8 - i,
        {
            let mut tuple = self.register[i];
            // a dummy that ages would no longer be a dummy
            if !tuple.is_dummy() {
                tuple.dispersion = tuple.dispersion + dispersion_correction;
            }
            self.register[i] = carried;
            carried = tuple;
            i = i + 1;
        }
    }
}

/// Aging changes the dispersion of a measurement and nothing else.
pub proof fn lemma_aging_keeps_measurement(
    sample: FilterTuple,
    later: Seq<(FilterTuple, NtpDuration)>,
)
    ensures
        sample.aged_by_all(later).same_measurement(sample),
    decreases later.len(),
{
    if later.len() > 0 {
        lemma_aging_keeps_measurement(sample, later.drop_last());
    }
}

/// After any number of insertions the register holds the latest measurements, newest
/// first: slot `k` holds the measurement that entered `k` insertions before the last, aged
/// by those `k` insertions, for every `k` below eight and below the number of insertions.
/// Its offset, delay and time are those that it entered with.
pub proof fn lemma_register_holds_latest(
    register: Seq<FilterTuple>,
    samples: Seq<(FilterTuple, NtpDuration)>,
    k: int,
)
    requires
        0 <= k < 8,
        k < samples.len(),
    ensures
        shifted_by_all(register, samples).len() == 8,
        shifted_by_all(register, samples)[k] == samples[samples.len() - 1 - k].0.aged_by_all(
            samples.subrange(samples.len() - k, samples.len() as int),
        ),
        shifted_by_all(register, samples)[k].same_measurement(samples[samples.len() - 1 - k].0),
    decreases samples.len(),
{
    let n = samples.len() as int;
    let later = samples.subrange(n - k, n);
    if k > 0 {
        let before = samples.drop_last();
        lemma_register_holds_latest(register, before, k - 1);
        assert(before.subrange(before.len() - (k - 1), before.len() as int) =~= later.drop_last());
    }
}

/// Where no time passes between the insertions, slot `k` holds the measurement that
/// entered `k` insertions before the last, unchanged.
pub proof fn lemma_register_holds_latest_unaged(
    register: Seq<FilterTuple>,
    samples: Seq<(FilterTuple, NtpDuration)>,
    k: int,
)
    requires
        0 <= k < 8,
        k < samples.len(),
        forall|i: int| 0 <= i < samples.len() ==> (#[trigger] samples[i]).1@ == 0,
    ensures
        shifted_by_all(register, samples)[k] == samples[samples.len() - 1 - k].0,
    decreases samples.len(),
{
    if k > 0 {
        let before = samples.drop_last();
        lemma_register_holds_latest_unaged(register, before, k - 1);
    }
}

} // verus!
