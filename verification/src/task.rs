//! What the task that drives one peer decides.
//!
//! The task waits for two things: the time of the next poll, and a datagram on the socket
//! that it opened for the last poll. It reads the clock, opens the socket, sends and
//! receives; what to do with the outcome of each of these is decided here.

use crate::duration::NtpDuration;
use crate::packet::{NtpHeader, NtpLeapIndicator};
use crate::peer::{Decision, Peer};
use crate::sample::{FilterTuple, IgnoreReason};
use crate::timestamp::NtpTimestamp;
use rand::Rng;
use vstd::prelude::*;

verus! {

/// The least number of bytes of a packet.
pub const MIN_PACKET_SIZE: usize = 48;

/// The number of polls without an answer after which a peer counts as unreachable.
pub const UNREACHABLE_AFTER: u8 = 8;

/// The least and the largest factor by which the time between two polls is stretched, in
/// thousandths.
pub const MIN_POLL_STRETCH: u32 = 1010;

pub const MAX_POLL_STRETCH: u32 = 1050;

/// The number by which the system tells its peers apart.
#[derive(Clone, Copy, Debug, PartialEq, Eq, Structural)]
pub struct PeerId {
    pub index: usize,
}

/// The state of a peer as the system sees it: a copy of the peer.
pub type PeerSnapshot = Peer;

/// A measurement as the system sees it.
pub type Measurement = FilterTuple;

/// What the task of a peer tells the system.
#[derive(Clone, Copy, Debug)]
pub enum MsgForSystem {
    /// The peer asked not to be polled any more, and must be demobilized.
    MustDemobilize(PeerId),
    /// The network failed, and the task must be started again.
    NetworkIssue(PeerId),
    /// The peer is unreachable, and should be started again with an address resolved anew.
    Unreachable(PeerId),
    /// A packet was taken up and gave a new measurement, which should bring on a
    /// selection.
    NewMeasurement(PeerId, PeerSnapshot, Measurement),
    /// The state of the peer may have changed, but not so that a selection is called for.
    UpdatedSnapshot(PeerId, PeerSnapshot),
}

/// What the task reads of the state of the system.
#[derive(Clone, Copy, Debug, PartialEq, Eq, Structural)]
pub struct SystemSnapshot {
    pub leap_indicator: NtpLeapIndicator,
    /// The precision of the system's clock.
    pub precision: NtpDuration,
    /// The interval at which the system polls.
    pub poll_interval: NtpDuration,
}

impl Default for SystemSnapshot {
    /// A system that is not synchronized yet, with a clock precise to `2^-18` seconds, that
    /// polls every sixteen seconds.
    fn default() -> (r: Self)
        ensures
            r.leap_indicator == NtpLeapIndicator::Unknown,
            r.precision == NtpDuration::exponent(-18),
            r.poll_interval == NtpDuration::exponent(4),
    {
        SystemSnapshot {
            leap_indicator: NtpLeapIndicator::Unknown,
            precision: NtpDuration::from_exponent(-18),
            poll_interval: NtpDuration::from_exponent(4),
        }
    }
}

/// What the socket says of a datagram that arrived.
#[derive(Clone, Copy, Debug, PartialEq, Eq, Structural)]
pub struct Received {
    pub bytes_read: usize,
    /// When the datagram arrived, if the socket took the time.
    pub timestamp: Option<NtpTimestamp>,
}

/// What becomes of a datagram.
#[derive(Clone, Copy, Debug)]
pub enum AcceptResult<'a> {
    /// A packet, and the time at which it arrived.
    Accept(&'a [u8], NtpTimestamp),
    Ignore,
    NetworkGone,
}

/// How a poll ended.
#[derive(Clone, Copy, Debug, PartialEq, Eq, Structural)]
pub enum PollResult {
    /// The poll took its course.
    Polled,
    NetworkGone,
    Unreachable,
}

/// How the handling of a packet ended.
#[derive(Clone, Copy, Debug, PartialEq, Eq, Structural)]
pub enum PacketResult {
    /// The packet was dealt with, taken up or passed over.
    Handled,
    Demobilize,
}

/// How the sending of a poll ended.
#[derive(Clone, Copy, Debug, PartialEq, Eq, Structural)]
pub enum SendOutcome {
    /// No socket could be opened.
    NoSocket,
    /// The packet is on its way; the kernel may have taken the time at which it left.
    Sent(Option<NtpTimestamp>),
    /// The packet could not be sent; the operating system may have given a reason.
    Failed(Option<i32>),
}

/// The error numbers by which the operating system says that a host or a network is down
/// or cannot be reached.
#[derive(Clone, Copy, Debug, PartialEq, Eq, Structural)]
pub struct NetworkErrnos {
    pub host_down: i32,
    pub host_unreachable: i32,
    pub net_down: i32,
    pub net_unreachable: i32,
}

impl NetworkErrnos {
    /// Whether `os_error` is one of the four error numbers.
    pub open spec fn holds(self, os_error: Option<i32>) -> bool {
        os_error matches Some(code) && (code == self.host_down || code == self.host_unreachable
            || code == self.net_down || code == self.net_unreachable)
    }

    /// Whether an error of the socket means that the network is gone.
    pub fn is_network_gone(&self, os_error: Option<i32>) -> (r: bool)
        ensures
            r == self.holds(os_error),
    {
        match os_error {
            Some(code) => code == self.host_down || code == self.host_unreachable || code
                == self.net_down || code == self.net_unreachable,
            None => false,
        }
    }

    /// The error numbers of the platform that the library was built for.
    pub fn of_platform() -> (r: Self) {
        NetworkErrnos {
            host_down: errno_host_down(),
            host_unreachable: errno_host_unreachable(),
            net_down: errno_net_down(),
            net_unreachable: errno_net_unreachable(),
        }
    }
}

/// `libc::EHOSTDOWN`: the error number for a host that is down. Which number that is
/// depends on the platform, so nothing is claimed of it.
#[verifier::external_body]
fn errno_host_down() -> i32 {
    libc::EHOSTDOWN
}

/// `libc::EHOSTUNREACH`: the error number for a host to which there is no route. Which
/// number that is depends on the platform, so nothing is claimed of it.
#[verifier::external_body]
fn errno_host_unreachable() -> i32 {
    libc::EHOSTUNREACH
}

/// `libc::ENETDOWN`: the error number for a network that is down. Which number that is
/// depends on the platform, so nothing is claimed of it.
#[verifier::external_body]
fn errno_net_down() -> i32 {
    libc::ENETDOWN
}

/// `libc::ENETUNREACH`: the error number for a network that cannot be reached. Which
/// number that is depends on the platform, so nothing is claimed of it.
#[verifier::external_body]
fn errno_net_unreachable() -> i32 {
    libc::ENETUNREACH
}

/// `rand::Rng::gen_range` on the generator of the thread, `rand::thread_rng()`, with the
/// range from `low` to `high`, both included. The number drawn lies in the range; which
/// one it is, is left open. The range must not be empty: the generator panics on an empty
/// one.
#[verifier::external_body]
fn random_in_range(low: u32, high: u32) -> (r: u32)
    requires
        low <= high,
    ensures
        low <= r <= high,
{
    rand::thread_rng().gen_range(low..=high)
}

/// `interval` stretched by `stretch` thousandths.
pub open spec fn stretched(interval: NtpDuration, stretch: int) -> NtpDuration {
    interval.times(stretch).over(1000)
}

/// The time to wait between two polls where the stretch drawn is `stretch` thousandths.
pub fn stretch_poll_interval(interval: NtpDuration, stretch: u32) -> (r: NtpDuration)
    ensures
        r == stretched(interval, stretch as int),
{
    interval.multiply_by(stretch as i64).divided_by(1000)
}

/// The time to wait between two polls: the poll interval, stretched by one to five
/// hundredths, drawn at random, so that the polls are hard to foretell and the peers of a
/// server do not poll it all at once.
pub fn randomize_poll_interval(interval: NtpDuration) -> (r: NtpDuration)
    ensures
        exists|stretch: int|
            MIN_POLL_STRETCH <= stretch <= MAX_POLL_STRETCH && r == #[trigger] stretched(
                interval,
                stretch,
            ),
{
    let stretch = random_in_range(MIN_POLL_STRETCH, MAX_POLL_STRETCH);
    let r = stretch_poll_interval(interval, stretch);
    r
}

/// What becomes of a datagram, or of the error that came in its place. `os_error` is the
/// error number of the operating system, if the error has one; `now` is the time on the
/// local clock, which stands in where the socket did not take the time of arrival.
pub open spec fn accepted<'a>(
    result: Result<Received, Option<i32>>,
    buf: &'a [u8],
    now: Option<NtpTimestamp>,
    errnos: NetworkErrnos,
) -> AcceptResult<'a> {
    match result {
        Ok(received) => {
            if received.bytes_read < MIN_PACKET_SIZE {
                AcceptResult::Ignore
            } else {
                AcceptResult::Accept(
                    buf,
                    match received.timestamp {
                        Some(timestamp) => timestamp,
                        None => now.unwrap(),
                    },
                )
            }
        },
        Err(os_error) => {
            if errnos.holds(os_error) {
                AcceptResult::NetworkGone
            } else {
                AcceptResult::Ignore
            }
        },
    }
}

/// Decides what becomes of a datagram, given the error numbers that mean that the network
/// is gone.
///
/// A datagram of fewer than 48 bytes is no packet and is ignored. A longer one may hold
/// extension fields; the bytes that were read are handed on. An error is ignored unless it
/// says that the network is gone.
pub fn accept_packet_with<'a>(
    result: Result<Received, Option<i32>>,
    buf: &'a [u8],
    now: Option<NtpTimestamp>,
    errnos: &NetworkErrnos,
) -> (r: AcceptResult<'a>)
    requires
        result matches Ok(received) ==> received.bytes_read <= buf@.len() && (
        received.timestamp is None ==> now is Some),
    ensures
        match (r, accepted(result, buf, now, *errnos)) {
            (AcceptResult::Accept(packet, at), AcceptResult::Accept(_, expected_at)) => {
                &&& packet@ == buf@.take(result->Ok_0.bytes_read as int)
                &&& at == expected_at
            },
            (AcceptResult::Ignore, AcceptResult::Ignore) => true,
            (AcceptResult::NetworkGone, AcceptResult::NetworkGone) => true,
            _ => false,
        },
{
    match result {
        Ok(received) => {
            let recv_timestamp = match received.timestamp {
                Some(timestamp) => timestamp,
                None => match now {
                    Some(timestamp) => timestamp,
                    None => vstd::pervasive::unreached(),
                },
            };
            if received.bytes_read < MIN_PACKET_SIZE {
                AcceptResult::Ignore
            } else {
                let packet = vstd::slice::slice_subrange(buf, 0, received.bytes_read);
                AcceptResult::Accept(packet, recv_timestamp)
            }
        },
        Err(os_error) => {
            if errnos.is_network_gone(os_error) {
                AcceptResult::NetworkGone
            } else {
                AcceptResult::Ignore
            }
        },
    }
}

/// Decides what becomes of a datagram on the platform that the library was built for.
pub fn accept_packet<'a>(
    result: Result<Received, Option<i32>>,
    buf: &'a [u8],
    now: Option<NtpTimestamp>,
) -> (r: AcceptResult<'a>)
    requires
        result matches Ok(received) ==> received.bytes_read <= buf@.len() && (
        received.timestamp is None ==> now is Some),
    ensures
        match result {
            Ok(received) => if received.bytes_read < MIN_PACKET_SIZE {
                r is Ignore
            } else {
                r matches AcceptResult::Accept(packet, at) && packet@ == buf@.take(
                    received.bytes_read as int,
                ) && at == match received.timestamp {
                    Some(timestamp) => timestamp,
                    None => now.unwrap(),
                }
            },
            Err(None) => r is Ignore,
            Err(Some(_)) => r is Ignore || r is NetworkGone,
        },
{
    let errnos = NetworkErrnos::of_platform();
    accept_packet_with(result, buf, now, &errnos)
}

/// The header of an answer with the time at which the poll left for its origin timestamp.
pub open spec fn answer_to(header: NtpHeader, send_timestamp: NtpTimestamp) -> NtpHeader {
    NtpHeader { origin_timestamp: send_timestamp, ..header }
}

impl Peer {
    /// Whether a packet with the header `packet` gives the peer a measurement: it comes
    /// from a synchronized server, its header can be true, and it is no broadcast.
    pub open spec fn takes(self, packet: NtpHeader) -> bool {
        &&& !packet.normalized().unsynchronized()
        &&& !packet.normalized().invalid()
        &&& packet.mode != crate::packet::NtpAssociationMode::Broadcast
    }
}

/// What the task of one peer keeps between its steps.
#[derive(Clone, Copy, Debug)]
pub struct PeerTaskState {
    pub index: PeerId,
    pub peer: Peer,
    /// When the last poll left. The packet itself does not say: it would tell the network
    /// the time of this system.
    pub last_send_timestamp: Option<NtpTimestamp>,
    /// The number of polls that have gone out, counted up to eight.
    pub polls_sent: u8,
}

/// What the task does after a step.
#[derive(Clone, Copy, Debug)]
pub struct Step {
    /// What to tell the system, if anything.
    pub message: Option<MsgForSystem>,
    /// Whether the task goes on; if not, it ends.
    pub proceed: bool,
    /// Whether the socket is given up: no more packets are expected on it.
    pub close_socket: bool,
}

/// A datagram after the parser has seen it.
#[derive(Clone, Copy, Debug)]
pub enum Datagram {
    /// A packet that arrived at `recv_timestamp`, what the parser made of it, and the time
    /// on the local clock at which it is taken up.
    Packet {
        parsed: Result<NtpHeader, IgnoreReason>,
        recv_timestamp: NtpTimestamp,
        local_clock_time: NtpTimestamp,
    },
    /// Nothing of use.
    Ignore,
    /// An error that says that the network is gone.
    NetworkGone,
}

impl PeerTaskState {
    /// Whether the peer has left eight polls in a row without an answer.
    pub open spec fn unreachable(self) -> bool {
        !self.peer.reach.reachable() && self.polls_sent >= UNREACHABLE_AFTER
    }

    /// Whether the state `after` and the outcome `r` are what the handling of a packet makes
    /// of this state. `parsed` is what the parser made of the packet, which arrived at
    /// `recv_timestamp` in answer to the poll that left at `send_timestamp`.
    ///
    /// A packet that the parser refused changes nothing; the task ends where the peer asks
    /// not to be polled again. A header that was parsed takes the time at which the poll
    /// left for its origin timestamp and goes to the peer. Where the peer takes a
    /// measurement from it, the measurement goes through the clock filter, and the system is
    /// told of the new state, and of the measurement if the filter took it up.
    pub open spec fn handles(
        self,
        after: PeerTaskState,
        r: (PacketResult, Option<MsgForSystem>),
        system: SystemSnapshot,
        parsed: Result<NtpHeader, IgnoreReason>,
        local_clock_time: NtpTimestamp,
        send_timestamp: NtpTimestamp,
        recv_timestamp: NtpTimestamp,
    ) -> bool {
        &&& after.index == self.index
        &&& after.last_send_timestamp == self.last_send_timestamp
        &&& after.polls_sent == self.polls_sent
        &&& match parsed {
            Err(reason) => {
                &&& after.peer == self.peer
                &&& reason == IgnoreReason::KissDemobilize ==> r == (
                    PacketResult::Demobilize,
                    Some(MsgForSystem::MustDemobilize(self.index)),
                )
                &&& reason != IgnoreReason::KissDemobilize ==> r == (
                    PacketResult::Handled,
                    None::<MsgForSystem>,
                )
            },
            Ok(header) => {
                let polled = answer_to(header, send_timestamp);
                &&& r.0 == PacketResult::Handled
                &&& !self.peer.takes(polled) ==> {
                    &&& r.1 is None
                    &&& polled.normalized().unsynchronized() || polled.normalized().invalid()
                        ==> after.peer == self.peer.rejected(polled)
                    &&& !polled.normalized().unsynchronized() && !polled.normalized().invalid()
                        ==> after.peer == self.peer.received(
                        local_clock_time,
                        polled,
                    )
                }
                &&& self.peer.takes(polled) ==> {
                    let before = self.peer.received(local_clock_time, polled);
                    let measurement = FilterTuple::measured(
                        polled.normalized(),
                        system.precision,
                        recv_timestamp,
                        local_clock_time,
                    );
                    &&& after.peer.is_filtered(
                        before,
                        measurement,
                        system.leap_indicator,
                        system.precision,
                    )
                    &&& before.stale(measurement, system.leap_indicator) ==> r.1 == Some(
                        MsgForSystem::UpdatedSnapshot(self.index, after.peer),
                    )
                    &&& !before.stale(measurement, system.leap_indicator) ==> r.1 == Some(
                        MsgForSystem::NewMeasurement(
                            self.index,
                            after.peer,
                            measurement,
                        ),
                    )
                }
            },
        }
    }

    pub fn new(index: PeerId, peer: Peer) -> (r: Self)
        ensures
            r.index == index,
            r.peer == peer,
            r.last_send_timestamp is None,
            r.polls_sent == 0,
    {
        PeerTaskState { index, peer, last_send_timestamp: None, polls_sent: 0 }
    }

    /// The time to wait from one poll to the next where the stretch drawn is `stretch`
    /// thousandths.
    pub fn update_poll_wait(&self, stretch: u32) -> (r: NtpDuration)
        ensures
            r == stretched(self.peer.host_poll, stretch as int),
    {
        stretch_poll_interval(self.peer.host_poll, stretch)
    }

    /// Begins a poll at `local_clock_time`.
    ///
    /// A peer that has left eight polls in a row without an answer is not polled again:
    /// the poll ends as `Unreachable`, and nothing changes. Any other peer takes note of
    /// the poll. The system is told of the state of the peer, but not at the first poll,
    /// when there is nothing to tell yet.
    pub fn handle_poll(&mut self, local_clock_time: NtpTimestamp) -> (r: (
        PollResult,
        Option<MsgForSystem>,
    ))
        ensures
            final(self).index == old(self).index,
            old(self).unreachable() ==> {
                &&& r.0 == PollResult::Unreachable
                &&& r.1 is None
                &&& *final(self) == *old(self)
            },
            !old(self).unreachable() ==> {
                &&& r.0 == PollResult::Polled
                &&& final(self).peer == old(self).peer.polled(local_clock_time)
                &&& final(self).last_send_timestamp == Some(local_clock_time)
                &&& final(self).polls_sent == if old(self).polls_sent < UNREACHABLE_AFTER {
                    (old(self).polls_sent + 1) as u8
                } else {
                    old(self).polls_sent
                }
                &&& old(self).last_send_timestamp is None ==> r.1 is None
                &&& old(self).last_send_timestamp is Some ==> r.1 == Some(
                    MsgForSystem::UpdatedSnapshot(old(self).index, final(self).peer),
                )
            },
    {
        if !self.peer.reach.is_reachable() && self.polls_sent >= UNREACHABLE_AFTER {
            return (PollResult::Unreachable, None);
        }
        self.peer.on_poll_sent(local_clock_time);
        if self.polls_sent < UNREACHABLE_AFTER {
            self.polls_sent = self.polls_sent + 1;
        }
        // the first snapshot holds nothing of use: the stratum is not valid yet

        let message = match self.last_send_timestamp {
            Some(_) => Some(MsgForSystem::UpdatedSnapshot(self.index, self.peer)),
            None => None,
        };
        self.last_send_timestamp = Some(local_clock_time);
        (PollResult::Polled, message)
    }

    /// Takes up how the sending of the poll ended, given the error numbers that mean that
    /// the network is gone.
    ///
    /// Without a socket, or with such an error, the network is gone. Any other error is
    /// passed over. Where the kernel took the time at which the packet left, that time
    /// takes the place of the time that was read from the clock before.
    pub fn poll_sent_with(&mut self, outcome: SendOutcome, errnos: &NetworkErrnos) -> (r:
        PollResult)
        ensures
            final(self).index == old(self).index,
            final(self).peer == old(self).peer,
            final(self).polls_sent == old(self).polls_sent,
            final(self).last_send_timestamp == match outcome {
                SendOutcome::Sent(Some(timestamp)) => Some(timestamp),
                _ => old(self).last_send_timestamp,
            },
            r == match outcome {
                SendOutcome::NoSocket => PollResult::NetworkGone,
                SendOutcome::Sent(_) => PollResult::Polled,
                SendOutcome::Failed(os_error) => if errnos.holds(os_error) {
                    PollResult::NetworkGone
                } else {
                    PollResult::Polled
                },
            },
    {
        match outcome {
            SendOutcome::NoSocket => PollResult::NetworkGone,
            SendOutcome::Sent(Some(timestamp)) => {
                self.last_send_timestamp = Some(timestamp);
                PollResult::Polled
            },
            SendOutcome::Sent(None) => PollResult::Polled,
            SendOutcome::Failed(os_error) => {
                if errnos.is_network_gone(os_error) {
                    PollResult::NetworkGone
                } else {
                    PollResult::Polled
                }
            },
        }
    }

    /// Takes up how the sending of the poll ended, on the platform that the library was
    /// built for.
    pub fn poll_sent(&mut self, outcome: SendOutcome) -> (r: PollResult)
        ensures
            final(self).index == old(self).index,
            final(self).peer == old(self).peer,
            final(self).polls_sent == old(self).polls_sent,
            final(self).last_send_timestamp == match outcome {
                SendOutcome::Sent(Some(timestamp)) => Some(timestamp),
                _ => old(self).last_send_timestamp,
            },
            match outcome {
                SendOutcome::NoSocket => r == PollResult::NetworkGone,
                SendOutcome::Sent(_) => r == PollResult::Polled,
                SendOutcome::Failed(None) => r == PollResult::Polled,
                SendOutcome::Failed(Some(_)) => r == PollResult::Polled || r
                    == PollResult::NetworkGone,
            },
    {
        let errnos = NetworkErrnos::of_platform();
        self.poll_sent_with(outcome, &errnos)
    }

    /// Takes up a packet that arrived at `recv_timestamp` in answer to the poll that left
    /// at `send_timestamp`. `parsed` is what the parser made of the packet.
    ///
    /// A header that was parsed takes the time at which the poll left for its origin
    /// timestamp, and goes to the peer. The measurement that the peer takes from it goes
    /// through the clock filter; the system is told of the new state, and of the
    /// measurement if the filter took it up. A peer that asks not to be polled again is
    /// reported and the task ends. Any other packet is passed over.
    pub fn handle_packet(
        &mut self,
        system: SystemSnapshot,
        parsed: Result<NtpHeader, IgnoreReason>,
        local_clock_time: NtpTimestamp,
        send_timestamp: NtpTimestamp,
        recv_timestamp: NtpTimestamp,
    ) -> (r: (PacketResult, Option<MsgForSystem>))
        ensures
            old(self).handles(
                *final(self),
                r,
                system,
                parsed,
                local_clock_time,
                send_timestamp,
                recv_timestamp,
            ),
    {
        match parsed {
            Ok(header) => {
                let mut header = header;
                header.origin_timestamp = send_timestamp;
                match self.peer.update_with_packet(
                    local_clock_time,
                    system.precision,
                    header,
                    recv_timestamp,
                ) {
                    Ok(measurement) => {
                        let decision = self.peer.clock_filter(
                            measurement,
                            system.leap_indicator,
                            system.precision,
                        );
                        let message = match decision {
                            Decision::Process => MsgForSystem::NewMeasurement(
                                self.index,
                                self.peer,
                                measurement,
                            ),
                            Decision::Ignore => MsgForSystem::UpdatedSnapshot(
                                self.index,
                                self.peer,
                            ),
                        };
                        (PacketResult::Handled, Some(message))
                    },
                    Err(_) => (PacketResult::Handled, None),
                }
            },
            Err(IgnoreReason::KissDemobilize) => (
                PacketResult::Demobilize,
                Some(MsgForSystem::MustDemobilize(self.index)),
            ),
            Err(_) => (PacketResult::Handled, None),
        }
    }

    /// What the task does after a poll that ended as `result`: it goes on after a poll
    /// that went well, and tells the system and ends after any other.
    pub fn after_poll(&self, result: PollResult) -> (r: Step)
        ensures
            r.proceed == (result == PollResult::Polled),
            !r.close_socket,
            match result {
                PollResult::Polled => r.message is None,
                PollResult::NetworkGone => r.message == Some(MsgForSystem::NetworkIssue(self.index)),
                PollResult::Unreachable => r.message == Some(MsgForSystem::Unreachable(self.index)),
            },
    {
        match result {
            PollResult::Polled => Step { message: None, proceed: true, close_socket: false },
            PollResult::NetworkGone => Step {
                message: Some(MsgForSystem::NetworkIssue(self.index)),
                proceed: false,
                close_socket: false,
            },
            PollResult::Unreachable => Step {
                message: Some(MsgForSystem::Unreachable(self.index)),
                proceed: false,
                close_socket: false,
            },
        }
    }

    /// Takes up a datagram, and says what the task does next.
    ///
    /// A packet that comes before any poll has left is no answer, and is dropped. Any other
    /// packet is handled as an answer to the last poll; once a packet has given a
    /// measurement no more are expected, and the socket is given up. The task ends where
    /// the peer asks not to be polled again, and where the network is gone, of which the
    /// system is told.
    pub fn handle_datagram(&mut self, system: SystemSnapshot, datagram: Datagram) -> (r: Step)
        ensures
            match datagram {
                Datagram::Ignore => {
                    &&& *final(self) == *old(self)
                    &&& r.message is None
                    &&& r.proceed
                    &&& !r.close_socket
                },
                Datagram::NetworkGone => {
                    &&& *final(self) == *old(self)
                    &&& r.message == Some(MsgForSystem::NetworkIssue(old(self).index))
                    &&& !r.proceed
                    &&& !r.close_socket
                },
                Datagram::Packet { parsed, recv_timestamp, local_clock_time } => match old(
                    self,
                ).last_send_timestamp {
                    None => {
                        &&& *final(self) == *old(self)
                        &&& r.message is None
                        &&& r.proceed
                        &&& !r.close_socket
                    },
                    Some(send_timestamp) => {
                        &&& old(self).handles(
                            *final(self),
                            (
                                if r.proceed {
                                    PacketResult::Handled
                                } else {
                                    PacketResult::Demobilize
                                },
                                r.message,
                            ),
                            system,
                            parsed,
                            local_clock_time,
                            send_timestamp,
                            recv_timestamp,
                        )
                        &&& r.close_socket == (parsed matches Ok(header) && old(self).peer.takes(
                            answer_to(header, send_timestamp),
                        ))
                    },
                },
            },
    {
        match datagram {
            Datagram::Ignore => Step { message: None, proceed: true, close_socket: false },
            Datagram::NetworkGone => Step {
                message: Some(MsgForSystem::NetworkIssue(self.index)),
                proceed: false,
                close_socket: false,
            },
            Datagram::Packet { parsed, recv_timestamp, local_clock_time } => {
                match self.last_send_timestamp {
                    None => Step { message: None, proceed: true, close_socket: false },
                    Some(send_timestamp) => {
                        let (result, message) = self.handle_packet(
                            system,
                            parsed,
                            local_clock_time,
                            send_timestamp,
                            recv_timestamp,
                        );
                        match result {
                            PacketResult::Handled => Step {
                                message,
                                proceed: true,
                                close_socket: message.is_some(),
                            },
                            PacketResult::Demobilize => Step {
                                message,
                                proceed: false,
                                close_socket: false,
                            },
                        }
                    },
                }
            },
        }
    }
}

} // verus!
