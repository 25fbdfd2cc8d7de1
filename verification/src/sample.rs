//! One measurement of a peer's clock, as the clock filter keeps it.

use crate::duration::{NtpDuration, MAX_DISPERSION_UNITS};
use crate::packet::{NtpAssociationMode, NtpHeader};
use crate::timestamp::NtpTimestamp;
use vstd::prelude::*;

verus! {

/// Why a packet gave no measurement.
#[derive(Clone, Copy, Debug, PartialEq, Eq, Structural)]
pub enum IgnoreReason {
    /// The sender's clock is not synchronized.
    Unsynchronized,
    /// The header places the sender too far from its root, or its reference after its
    /// transmission.
    InvalidHeader,
    /// The packet is a broadcast, from which no measurement is taken.
    UnsupportedMode,
    /// The sender asks not to be polled again.
    KissDemobilize,
}

/// What the clock drifts in the time `duration`, at 15 parts per million.
pub open spec fn phi_of(duration: NtpDuration) -> NtpDuration {
    duration.times(15).over(1_000_000)
}

/// What the clock drifts in the time `duration`, at 15 parts per million.
pub fn multiply_by_phi(duration: NtpDuration) -> (r: NtpDuration)
    ensures
        r == phi_of(duration),
{
    (duration * 15) / 1_000_000
}

/// A measurement: the offset of the peer's clock, the round trip delay, a bound on the
/// error, and the local time at which it was taken.
#[derive(Clone, Copy, Debug, PartialEq, Eq, Structural)]
pub struct FilterTuple {
    pub offset: NtpDuration,
    pub delay: NtpDuration,
    pub dispersion: NtpDuration,
    pub time: NtpTimestamp,
}

impl Default for FilterTuple {
    fn default() -> (r: Self)
        ensures
            r.offset@ == 0,
            r.delay@ == 0,
            r.dispersion@ == 0,
            r.time@ == 0,
    {
        FilterTuple {
            offset: NtpDuration::zero(),
            delay: NtpDuration::zero(),
            dispersion: NtpDuration::zero(),
            time: NtpTimestamp::zero(),
        }
    }
}

impl FilterTuple {
    /// The value that stands in an empty slot: no offset, the largest delay and dispersion,
    /// taken at time zero.
    pub open spec fn dummy_value() -> FilterTuple {
        FilterTuple {
            offset: NtpDuration::of(0),
            delay: NtpDuration::of(MAX_DISPERSION_UNITS as int),
            dispersion: NtpDuration::of(MAX_DISPERSION_UNITS as int),
            time: NtpTimestamp::of(0),
        }
    }

    /// The measurement that a reply gives. `T1` to `T4` are the times at which the request
    /// left, reached the server, and the reply left and arrived.
    pub open spec fn measured(
        packet: NtpHeader,
        system_precision: NtpDuration,
        destination_timestamp: NtpTimestamp,
        local_clock_time: NtpTimestamp,
    ) -> FilterTuple {
        let outbound = packet.receive_timestamp.since(packet.origin_timestamp);
        let inbound = destination_timestamp.since(packet.transmit_timestamp);
        let elapsed = destination_timestamp.since(packet.origin_timestamp);
        let held = packet.transmit_timestamp.since(packet.receive_timestamp);
        FilterTuple {
            offset: outbound.plus(inbound).over(2),
            delay: elapsed.minus(held).at_least(system_precision),
            dispersion: NtpDuration::exponent(packet.precision as int).plus(
                system_precision,
            ).plus(phi_of(elapsed)),
            time: local_clock_time,
        }
    }

    pub fn dummy() -> (r: Self)
        ensures
            r == Self::dummy_value(),
    {
        FilterTuple {
            offset: NtpDuration::zero(),
            delay: NtpDuration::max_dispersion(),
            dispersion: NtpDuration::max_dispersion(),
            time: NtpTimestamp::zero(),
        }
    }

    pub fn is_dummy(self) -> (r: bool)
        ensures
            r == (self == Self::dummy_value()),
    {
        self == Self::dummy()
    }

    /// Turns a reply and the time of its arrival into a measurement. A broadcast gives
    /// none.
    pub fn from_packet(
        packet: &NtpHeader,
        system_precision: NtpDuration,
        destination_timestamp: NtpTimestamp,
        local_clock_time: NtpTimestamp,
    ) -> (r: Result<Self, IgnoreReason>)
        ensures
            packet.mode == NtpAssociationMode::Broadcast ==> r == Err::<FilterTuple, IgnoreReason>(
                IgnoreReason::UnsupportedMode,
            ),
            packet.mode != NtpAssociationMode::Broadcast ==> r == Ok::<FilterTuple, IgnoreReason>(
                Self::measured(
                    *packet,
                    system_precision,
                    destination_timestamp,
                    local_clock_time,
                ),
            ),
            r matches Ok(sample) ==> sample.delay@ >= system_precision@,
    {
        let packet_precision = NtpDuration::from_exponent(packet.precision);
        match packet.mode {
            NtpAssociationMode::Broadcast => Err(IgnoreReason::UnsupportedMode),
            _ => {
                // the offset is the mean of the two one-way differences
                let offset1 = packet.receive_timestamp - packet.origin_timestamp;
                let offset2 = destination_timestamp - packet.transmit_timestamp;
                let offset = (offset1 + offset2) / 2;

                // the delay is the round trip less the time the server held the request
                let delta1 = destination_timestamp - packet.origin_timestamp;
                let delta2 = packet.transmit_timestamp - packet.receive_timestamp;
                // with clocks that run at different rates and a fast network the
                // difference can come out negative: it is kept at the precision or above
                let delay = (delta1 - delta2).max(system_precision);

                let dispersion = packet_precision + system_precision + multiply_by_phi(delta1);

                Ok(FilterTuple { offset, delay, dispersion, time: local_clock_time })
            },
        }
    }
}

} // verus!
