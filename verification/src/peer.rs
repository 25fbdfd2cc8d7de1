//! The state of one peer: its statistics, its register, its poll schedule.

use crate::duration::{NtpDuration, UNITS_PER_SECOND};
use crate::evaluator::{jitter_of, valid_count, weighted_dispersion, TemporaryList};
use crate::packet::{NtpAssociationMode, NtpHeader, NtpLeapIndicator, ReferenceId, MAX_STRATUM};
use crate::reach::Reach;
use crate::register::{shifted, LastMeasurements};
use crate::sample::{multiply_by_phi, phi_of, FilterTuple, IgnoreReason};
use crate::sorting::stable_sorted;
use crate::timestamp::NtpTimestamp;
use vstd::prelude::*;

verus! {

/// The shortest poll interval, as an exponent of two in seconds: 16 seconds.
pub const MIN_POLL: i8 = 4;

/// The longest poll interval, as an exponent of two in seconds: about 36 hours.
pub const MAX_POLL: i8 = 17;

/// The units in the two seconds between the packets of a burst.
pub const BURST_INTERVAL_UNITS: i64 = 0x2_0000_0000;

/// `value` brought down to `upper_bound` and then up to `lower_bound`.
pub open spec fn clamped(
    lower_bound: NtpDuration,
    value: NtpDuration,
    upper_bound: NtpDuration,
) -> NtpDuration {
    value.at_most(upper_bound).at_least(lower_bound)
}

pub fn clamp_ntp_duration(
    lower_bound: NtpDuration,
    value: NtpDuration,
    upper_bound: NtpDuration,
) -> (r: NtpDuration)
    ensures
        r == clamped(lower_bound, value, upper_bound),
{
    value.min(upper_bound).max(lower_bound)
}

/// The largest root distance at which a peer is still used, before the allowance for the
/// poll interval: one second.
pub fn max_distance() -> (r: NtpDuration)
    ensures
        r@ == UNITS_PER_SECOND,
{
    NtpDuration::one()
}

/// What the clock filter knows of a peer.
#[derive(Clone, Copy, Debug, PartialEq, Eq, Structural)]
pub struct PeerStatistics {
    pub offset: NtpDuration,
    pub delay: NtpDuration,
    pub dispersion: NtpDuration,
    pub jitter: NtpDuration,
}

impl Default for PeerStatistics {
    fn default() -> (r: Self)
        ensures
            r.offset@ == 0,
            r.delay@ == 0,
            r.dispersion@ == 0,
            r.jitter@ == 0,
    {
        PeerStatistics {
            offset: NtpDuration::zero(),
            delay: NtpDuration::zero(),
            dispersion: NtpDuration::zero(),
            jitter: NtpDuration::zero(),
        }
    }
}

/// Whether the clock filter took up a measurement.
#[derive(Clone, Copy, Debug, PartialEq, Eq, Structural)]
pub enum Decision {
    /// The best measurement is not newer than the one in use: the statistics stay.
    Ignore,
    /// The statistics were taken anew.
    Process,
}

impl NtpHeader {
    /// The header with stratum 0, which stands for "unspecified", turned into the largest
    /// stratum.
    pub open spec fn normalized(self) -> NtpHeader {
        NtpHeader {
            leap: self.leap,
            mode: self.mode,
            stratum: if self.stratum == 0 {
                MAX_STRATUM
            } else {
                self.stratum
            },
            poll: self.poll,
            precision: self.precision,
            root_delay: self.root_delay,
            root_dispersion: self.root_dispersion,
            reference_id: self.reference_id,
            reference_timestamp: self.reference_timestamp,
            origin_timestamp: self.origin_timestamp,
            receive_timestamp: self.receive_timestamp,
            transmit_timestamp: self.transmit_timestamp,
        }
    }

    /// Whether the sender's clock is not synchronized: it has never been, or its stratum is
    /// beyond the valid ones.
    pub open spec fn unsynchronized(self) -> bool {
        !self.leap.synchronized() || self.stratum >= MAX_STRATUM
    }

    /// Half the delay to the root plus the dispersion at the root.
    pub open spec fn packet_dispersion(self) -> NtpDuration {
        self.root_delay.over(2).plus(self.root_dispersion)
    }

    /// Whether the header cannot be true: the sender is sixteen seconds or more from its
    /// root, or it took its time from its reference after it sent the packet.
    pub open spec fn invalid(self) -> bool {
        self.packet_dispersion()@ >= crate::duration::MAX_DISPERSION_UNITS
            || self.reference_timestamp@ > self.transmit_timestamp@
    }
}

/// One association with a server.
#[derive(Clone, Copy, Debug)]
pub struct Peer {
    pub statistics: PeerStatistics,
    pub last_measurements: LastMeasurements,
    /// The header of the last packet that arrived.
    pub last_packet: NtpHeader,
    /// The local time of the measurement that the statistics were last taken from.
    pub time: NtpTimestamp,
    pub peer_id: ReferenceId,
    pub our_id: ReferenceId,
    /// The interval between polls.
    pub host_poll: NtpDuration,
    /// The number of packets that are still to be sent in quick succession; 0 outside a
    /// burst.
    pub burst: u8,
    /// When the last poll was scheduled.
    pub out_date: NtpTimestamp,
    /// When the next poll is due.
    pub next_date: NtpTimestamp,
    pub reach: Reach,
}

impl Peer {
    /// Whether `other` differs from this peer in nothing but statistics, register and
    /// time.
    pub open spec fn same_association(self, other: Peer) -> bool {
        &&& self.last_packet == other.last_packet
        &&& self.peer_id == other.peer_id
        &&& self.our_id == other.our_id
        &&& self.host_poll == other.host_poll
        &&& self.burst == other.burst
        &&& self.out_date == other.out_date
        &&& self.next_date == other.next_date
        &&& self.reach == other.reach
    }

    /// The register after `new_tuple` has entered it. The measurements in it age by what
    /// the clock may have drifted since the statistics were last taken.
    pub open spec fn register_after(self, new_tuple: FilterTuple) -> Seq<FilterTuple> {
        shifted(self.last_measurements@, new_tuple, phi_of(new_tuple.time.since(self.time)))
    }

    /// The measurement of smallest delay after `new_tuple` has entered the register; of
    /// several, the newest.
    pub open spec fn best_after(self, new_tuple: FilterTuple) -> FilterTuple {
        stable_sorted(self.register_after(new_tuple))[0]
    }

    /// Whether `new_tuple` leaves the peer without a measurement newer than the one in use,
    /// at a time when the system's clock is synchronized. Before that anything goes.
    pub open spec fn stale(self, new_tuple: FilterTuple, system_leap: NtpLeapIndicator) -> bool {
        self.best_after(new_tuple).time@ <= self.time@ && system_leap.synchronized()
    }

    /// The statistics that the register gives after `new_tuple` has entered it.
    pub open spec fn statistics_after(
        self,
        new_tuple: FilterTuple,
        system_precision: NtpDuration,
    ) -> PeerStatistics {
        let sorted = stable_sorted(self.register_after(new_tuple));
        let best = sorted[0];
        PeerStatistics {
            offset: best.offset,
            delay: best.delay,
            dispersion: weighted_dispersion(sorted, 8),
            jitter: jitter_of(sorted.take(valid_count(sorted) as int), best, system_precision),
        }
    }

    /// The largest error of the peer's clock against the root of its time, as seen at
    /// `local_clock_time`: half the delay to the root, but no less than half the least
    /// dispersion, plus the dispersion of the root and of the peer, plus what the clock may
    /// have drifted since the statistics were taken, plus the jitter.
    pub open spec fn root_distance_at(self, local_clock_time: NtpTimestamp) -> NtpDuration {
        NtpDuration::of(crate::duration::MIN_DISPERSION_UNITS as int).at_least(
            self.last_packet.root_delay.plus(self.statistics.delay),
        ).over(2).plus(self.last_packet.root_dispersion).plus(self.statistics.dispersion).plus(
            phi_of(local_clock_time.since(self.time)),
        ).plus(self.statistics.jitter)
    }

    /// Whether the peer is fit to take part in the selection: it is synchronized at a
    /// valid stratum, its root distance is within one second plus what the clock drifts in
    /// one poll interval of the system, and it does not take its time from this host,
    /// unless it is a primary server.
    pub open spec fn fit(self, local_clock_time: NtpTimestamp, system_poll: NtpDuration) -> bool {
        &&& !self.last_packet.unsynchronized()
        &&& self.root_distance_at(local_clock_time)@ <= NtpDuration::of(
            UNITS_PER_SECOND as int,
        ).plus(phi_of(system_poll))@
        &&& !(self.last_packet.stratum != 1 && self.last_packet.reference_id == self.our_id)
    }

    /// The poll interval and the time of the next poll after a packet or a poll at
    /// `local_clock_time`, for which the interval `poll_interval` is asked.
    pub open spec fn schedule_after(
        self,
        local_clock_time: NtpTimestamp,
        poll_interval: NtpDuration,
    ) -> (NtpDuration, NtpTimestamp) {
        let host_poll = clamped(
            NtpDuration::exponent(MIN_POLL as int),
            poll_interval,
            NtpDuration::exponent(MAX_POLL as int),
        );
        if self.burst > 0 && self.next_date@ < local_clock_time@ {
            (host_poll, self.next_date)
        } else {
            let planned = if self.burst > 0 {
                self.next_date.after(NtpDuration::of(BURST_INTERVAL_UNITS as int))
            } else {
                self.out_date.after(
                    clamped(
                        NtpDuration::exponent(MIN_POLL as int),
                        host_poll,
                        NtpDuration::exponent(self.last_packet.poll as int),
                    ),
                )
            };
            if planned@ < local_clock_time@ {
                (host_poll, local_clock_time.after(NtpDuration::of(UNITS_PER_SECOND as int)))
            } else {
                (host_poll, planned)
            }
        }
    }

    /// The peer after its poll schedule was set anew at `local_clock_time`, with the
    /// interval `poll_interval` asked for.
    pub open spec fn rescheduled(
        self,
        local_clock_time: NtpTimestamp,
        poll_interval: NtpDuration,
    ) -> Peer {
        let schedule = self.schedule_after(local_clock_time, poll_interval);
        Peer { host_poll: schedule.0, next_date: schedule.1, ..self }
    }

    /// The peer after a packet with the header `packet` arrived that gave no measurement:
    /// it keeps the header and nothing else.
    pub open spec fn rejected(self, packet: NtpHeader) -> Peer {
        Peer { last_packet: packet.normalized(), ..self }
    }

    /// The peer after a packet with the header `packet` arrived at `local_clock_time` from
    /// a synchronized server: it keeps the header, plans its next poll and is reachable.
    pub open spec fn received(self, local_clock_time: NtpTimestamp, packet: NtpHeader) -> Peer {
        Peer { reach: self.reach.with_packet(), ..self.rejected(packet) }.rescheduled(
            local_clock_time,
            self.host_poll,
        )
    }

    /// The peer after a poll went out at `local_clock_time`: what arrived before counts for
    /// one poll less, and the next poll is planned from this one.
    pub open spec fn polled(self, local_clock_time: NtpTimestamp) -> Peer {
        Peer { reach: self.reach.polled(), out_date: local_clock_time, ..self }.rescheduled(
            local_clock_time,
            self.host_poll,
        )
    }

    /// Whether this peer is what the clock filter makes of the peer `before` and the
    /// measurement `new_tuple`: the measurement is in the register, and unless it left the
    /// peer with nothing newer than what was in use, statistics and time are taken from the
    /// register anew.
    pub open spec fn is_filtered(
        self,
        before: Peer,
        new_tuple: FilterTuple,
        system_leap: NtpLeapIndicator,
        system_precision: NtpDuration,
    ) -> bool {
        &&& self.last_measurements@ == before.register_after(new_tuple)
        &&& before.same_association(self)
        &&& before.stale(new_tuple, system_leap) ==> {
            &&& self.statistics == before.statistics
            &&& self.time == before.time
        }
        &&& !before.stale(new_tuple, system_leap) ==> {
            &&& self.statistics == before.statistics_after(new_tuple, system_precision)
            &&& self.time == before.best_after(new_tuple).time
        }
    }

    /// A peer of which nothing is known yet.
    pub fn new(our_id: ReferenceId, peer_id: ReferenceId) -> (r: Self)
        ensures
            r.our_id == our_id,
            r.peer_id == peer_id,
            r.statistics.offset@ == 0 && r.statistics.delay@ == 0 && r.statistics.dispersion@ == 0
                && r.statistics.jitter@ == 0,
            r.last_measurements@ == Seq::new(8, |i: int| FilterTuple::dummy_value()),
            r.last_packet == NtpHeader::blank(),
            r.time@ == 0,
            r.host_poll@ == 0,
            r.burst == 0,
            r.out_date@ == 0,
            r.next_date@ == 0,
            r.reach.bits == 0,
    {
        Peer {
            statistics: PeerStatistics::default(),
            last_measurements: LastMeasurements::new(),
            last_packet: NtpHeader::new(),
            time: NtpTimestamp::zero(),
            peer_id,
            our_id,
            host_poll: NtpDuration::zero(),
            burst: 0,
            out_date: NtpTimestamp::zero(),
            next_date: NtpTimestamp::zero(),
            reach: Reach::default(),
        }
    }

    /// Takes a new measurement into the register and, unless that leaves the peer with
    /// nothing newer than what is in use, takes the statistics anew from the register.
    pub fn clock_filter(
        &mut self,
        new_tuple: FilterTuple,
        system_leap_indicator: NtpLeapIndicator,
        system_precision: NtpDuration,
    ) -> (r: Decision)
        ensures
            final(self).is_filtered(
                *old(self),
                new_tuple,
                system_leap_indicator,
                system_precision,
            ),
            r == if old(self).stale(new_tuple, system_leap_indicator) {
                Decision::Ignore
            } else {
                Decision::Process
            },
    {
        let dispersion_correction = multiply_by_phi(new_tuple.time - self.time);
        self.last_measurements.shift_and_insert(new_tuple, dispersion_correction);

        let temporary_list = TemporaryList::from_clock_filter_contents(&self.last_measurements);
        let smallest_delay = *temporary_list.smallest_delay();

        // Prime directive: use a sample only once and never a sample older than the
        // latest one, but anything goes before first synchronized.
        if smallest_delay.time <= self.time && system_leap_indicator.is_synchronized() {
            return Decision::Ignore;
        }
        let offset = smallest_delay.offset;
        let delay = smallest_delay.delay;

        let dispersion = temporary_list.dispersion();
        let jitter = temporary_list.jitter(smallest_delay, system_precision);

        self.statistics = PeerStatistics { offset, delay, dispersion, jitter };
        self.time = smallest_delay.time;

        Decision::Process
    }

    /// The largest error of the peer's clock against the root of its time.
    pub fn root_distance(&self, local_clock_time: NtpTimestamp) -> (r: NtpDuration)
        ensures
            r == self.root_distance_at(local_clock_time),
    {
        NtpDuration::min_dispersion().max(self.last_packet.root_delay + self.statistics.delay) / 2
            + self.last_packet.root_dispersion + self.statistics.dispersion + multiply_by_phi(
            local_clock_time - self.time,
        ) + self.statistics.jitter
    }

    /// Whether the peer is fit to take part in the selection. Whether it is reachable is not
    /// asked here.
    pub fn accept_synchronization(
        &self,
        local_clock_time: NtpTimestamp,
        system_poll: NtpDuration,
    ) -> (r: bool)
        ensures
            r == self.fit(local_clock_time, system_poll),
    {
        // a stratum error: the server has never been synchronized, or its stratum is
        // not a valid one
        if !self.last_packet.leap.is_synchronized() || self.last_packet.stratum >= MAX_STRATUM {
            return false;
        }
        // a distance error: the root distance is beyond the threshold plus the
        // allowance for one poll interval

        let distance = self.root_distance(local_clock_time);
        if distance > max_distance() + multiply_by_phi(system_poll) {
            return false;
        }
        // a loop: the peer takes its time from us. A primary server takes its time from
        // hardware, whatever its reference id says.

        if self.last_packet.stratum != 1 && self.last_packet.reference_id == self.our_id {
            return false;
        }
        true
    }

    /// Takes up the header of a packet that arrived at `destination_timestamp` and turns it
    /// into a measurement. A packet from a server that is not synchronized, or with a
    /// header that cannot be true, leaves its header behind and nothing else. Any other
    /// packet moves the poll schedule on and marks the peer as reachable.
    pub fn update_with_packet(
        &mut self,
        local_clock_time: NtpTimestamp,
        system_precision: NtpDuration,
        packet: NtpHeader,
        destination_timestamp: NtpTimestamp,
    ) -> (r: Result<FilterTuple, IgnoreReason>)
        ensures
            packet.normalized().unsynchronized() ==> {
                &&& r == Err::<FilterTuple, IgnoreReason>(IgnoreReason::Unsynchronized)
                &&& *final(self) == old(self).rejected(packet)
            },
            !packet.normalized().unsynchronized() && packet.normalized().invalid() ==> {
                &&& r == Err::<FilterTuple, IgnoreReason>(IgnoreReason::InvalidHeader)
                &&& *final(self) == old(self).rejected(packet)
            },
            !packet.normalized().unsynchronized() && !packet.normalized().invalid() ==> {
                &&& *final(self) == old(self).received(local_clock_time, packet)
                &&& packet.mode == NtpAssociationMode::Broadcast ==> r == Err::<
                    FilterTuple,
                    IgnoreReason,
                >(IgnoreReason::UnsupportedMode)
                &&& packet.mode != NtpAssociationMode::Broadcast ==> r == Ok::<
                    FilterTuple,
                    IgnoreReason,
                >(
                    FilterTuple::measured(
                        packet.normalized(),
                        system_precision,
                        destination_timestamp,
                        local_clock_time,
                    ),
                )
            },
    {
        let mut packet = packet;
        // stratum 0 stands for "unspecified"; as the largest stratum it compares like
        // any other
        if packet.stratum == 0 {
            packet.stratum = MAX_STRATUM;
        }
        self.last_packet = packet;

        if !self.last_packet.leap.is_synchronized() || self.last_packet.stratum >= MAX_STRATUM {
            return Err(IgnoreReason::Unsynchronized);
        }
        let packet_dispersion = self.last_packet.root_delay / 2 + self.last_packet.root_dispersion;
        let time_travel = self.last_packet.reference_timestamp
            > self.last_packet.transmit_timestamp;
        if packet_dispersion >= NtpDuration::max_dispersion() || time_travel {
            return Err(IgnoreReason::InvalidHeader);
        }
        let poll_interval = self.host_poll;
        self.poll_update(local_clock_time, poll_interval);
        self.reach.received_packet();

        FilterTuple::from_packet(
            &packet,
            system_precision,
            destination_timestamp,
            local_clock_time,
        )
    }

    /// Sets the poll interval and the time of the next poll.
    ///
    /// The interval asked for is kept between 16 seconds and about 36 hours. In a burst the
    /// next poll comes two seconds after the one that was due, unless that one is overdue:
    /// then nothing is planned. Outside a burst it comes one interval after the last poll,
    /// the interval no longer than the one that the server named and no shorter than 16
    /// seconds. A poll that would be planned in the past is planned one second from now.
    pub fn poll_update(&mut self, local_clock_time: NtpTimestamp, poll_interval: NtpDuration)
        ensures
            *final(self) == old(self).rescheduled(local_clock_time, poll_interval),
    {
        self.host_poll = clamp_ntp_duration(
            NtpDuration::from_exponent(MIN_POLL),
            poll_interval,
            NtpDuration::from_exponent(MAX_POLL),
        );

        if self.burst > 0 {
            // the next packet of a burst is planned only once the deadline of this one
            // has not passed yet
            if self.next_date < local_clock_time {
                return ;
            } else {
                self.next_date = self.next_date + NtpDuration::from_fixed_int(BURST_INTERVAL_UNITS);
            }
        } else {
            let offset = clamp_ntp_duration(
                NtpDuration::from_exponent(MIN_POLL),
                self.host_poll,
                NtpDuration::from_exponent(self.last_packet.poll),
            );
            self.next_date = self.out_date + offset;
        }

        if self.next_date < local_clock_time {
            self.next_date = local_clock_time + NtpDuration::one();
        }
    }

    /// Takes note of a poll that goes out at `local_clock_time`: what arrived before counts
    /// for one poll less, and the next poll is planned from this one.
    pub fn on_poll_sent(&mut self, local_clock_time: NtpTimestamp)
        ensures
            *final(self) == old(self).polled(local_clock_time),
    {
        self.reach.poll();
        self.out_date = local_clock_time;
        let poll_interval = self.host_poll;
        self.poll_update(local_clock_time, poll_interval);
    }

    /// When the next poll is due.
    pub fn next_poll_deadline(&self) -> (r: NtpTimestamp)
        ensures
            r == self.next_date,
    {
        self.next_date
    }
}

/// The prime directive. While the system's clock is synchronized, a measurement that is
/// not newer than the one in use is ignored, and the statistics stay as they are. That
/// holds wherever the measurement leaves the register without a measurement of smallest
/// delay that is newer than the one in use; such a measurement is taken up whatever came
/// in.
pub proof fn lemma_prime_directive(
    peer: Peer,
    after: Peer,
    new_tuple: FilterTuple,
    system_leap: NtpLeapIndicator,
    system_precision: NtpDuration,
)
    requires
        system_leap.synchronized(),
        new_tuple.time@ <= peer.time@,
        peer.best_after(new_tuple).time@ <= peer.time@,
        after.is_filtered(peer, new_tuple, system_leap, system_precision),
    ensures
        peer.stale(new_tuple, system_leap),
        after.statistics == peer.statistics,
        after.time == peer.time,
{
}

/// In a register that holds nothing newer than the measurement in use, a measurement that
/// is not newer either leaves nothing newer behind.
pub proof fn lemma_nothing_newer(peer: Peer, new_tuple: FilterTuple)
    requires
        new_tuple.time@ <= peer.time@,
        forall|i: int| 0 <= i < 8 ==> (#[trigger] peer.last_measurements@[i]).time@ <= peer.time@,
    ensures
        peer.best_after(new_tuple).time@ <= peer.time@,
{
    let register = peer.register_after(new_tuple);
    let sorted = stable_sorted(register);
    crate::sorting::lemma_stable_sorted(register);
    sorted.to_multiset_ensures();
    register.to_multiset_ensures();
    let best = sorted[0];
    assert(register.to_multiset().count(best) > 0);
}

} // verus!
