use ntp_filter::duration::NtpDuration;
use ntp_filter::packet::{NtpAssociationMode, NtpHeader, NtpLeapIndicator, ReferenceId};
use ntp_filter::peer::Peer;
use ntp_filter::sample::IgnoreReason;
use ntp_filter::task::{
    accept_packet, accept_packet_with, randomize_poll_interval, stretch_poll_interval,
    AcceptResult, Datagram, MsgForSystem, NetworkErrnos, PacketResult, PeerId, PeerTaskState,
    PollResult, Received, SendOutcome, SystemSnapshot,
};
use ntp_filter::timestamp::NtpTimestamp;

const SECOND: i64 = 1 << 32;

fn task() -> PeerTaskState {
    let peer = Peer::new(ReferenceId::from_int(1), ReferenceId::from_int(2));
    PeerTaskState::new(PeerId { index: 7 }, peer)
}

fn at(seconds: u64) -> NtpTimestamp {
    NtpTimestamp::from_fixed_int(seconds << 32)
}

fn answer() -> NtpHeader {
    let mut header = NtpHeader::default();
    header.mode = NtpAssociationMode::Server;
    header.stratum = 2;
    header.poll = 6;
    header
}

fn synchronized() -> SystemSnapshot {
    SystemSnapshot { leap_indicator: NtpLeapIndicator::NoWarning, ..SystemSnapshot::default() }
}

const ERRNOS: NetworkErrnos =
    NetworkErrnos { host_down: 1, host_unreachable: 2, net_down: 3, net_unreachable: 4 };

#[test]
fn system_snapshot_defaults() {
    let system = SystemSnapshot::default();
    assert_eq!(system.leap_indicator, NtpLeapIndicator::Unknown);
    assert_eq!(system.precision.to_fixed_int(), 16_384);
    assert_eq!(system.poll_interval.to_fixed_int(), 16 * SECOND);
}

#[test]
fn short_datagram_is_ignored() {
    let buf = [0u8; 1024];
    for size in [0, 1, 47] {
        let received = Received { bytes_read: size, timestamp: Some(at(5)) };
        assert!(matches!(accept_packet(Ok(received), &buf, None), AcceptResult::Ignore));
    }
}

#[test]
fn datagram_is_accepted_with_its_timestamp() {
    let mut buf = [0u8; 1024];
    for (i, byte) in buf.iter_mut().enumerate() {
        *byte = i as u8;
    }
    for size in [48, 49, 1024] {
        let received = Received { bytes_read: size, timestamp: Some(at(5)) };
        match accept_packet(Ok(received), &buf, Some(at(9))) {
            AcceptResult::Accept(packet, timestamp) => {
                assert_eq!(packet, &buf[..size]);
                assert_eq!(timestamp, at(5));
            }
            _ => panic!("the datagram was not accepted"),
        }
    }
}

#[test]
fn datagram_without_timestamp_takes_the_time_of_the_clock() {
    let buf = [0u8; 48];
    let received = Received { bytes_read: 48, timestamp: None };
    match accept_packet(Ok(received), &buf, Some(at(9))) {
        AcceptResult::Accept(packet, timestamp) => {
            assert_eq!(packet.len(), 48);
            assert_eq!(timestamp, at(9));
        }
        _ => panic!("the datagram was not accepted"),
    }
}

#[test]
fn receive_error_is_ignored_unless_the_network_is_gone() {
    let buf = [0u8; 48];
    assert!(matches!(accept_packet_with(Err(None), &buf, None, &ERRNOS), AcceptResult::Ignore));
    assert!(matches!(accept_packet_with(Err(Some(0)), &buf, None, &ERRNOS), AcceptResult::Ignore));
    assert!(matches!(accept_packet_with(Err(Some(5)), &buf, None, &ERRNOS), AcceptResult::Ignore));
    for code in 1..=4 {
        assert!(matches!(
            accept_packet_with(Err(Some(code)), &buf, None, &ERRNOS),
            AcceptResult::NetworkGone
        ));
    }
    assert!(ERRNOS.is_network_gone(Some(3)));
    assert!(!ERRNOS.is_network_gone(Some(7)));
    assert!(!ERRNOS.is_network_gone(None));
}

#[test]
fn receive_error_of_the_platform() {
    let buf = [0u8; 48];
    for code in [libc::EHOSTDOWN, libc::EHOSTUNREACH, libc::ENETDOWN, libc::ENETUNREACH] {
        assert!(matches!(accept_packet(Err(Some(code)), &buf, None), AcceptResult::NetworkGone));
    }
    for code in [0, libc::ECONNREFUSED, libc::EAGAIN, libc::EINTR] {
        assert!(matches!(accept_packet(Err(Some(code)), &buf, None), AcceptResult::Ignore));
    }
    assert!(matches!(accept_packet(Err(None), &buf, None), AcceptResult::Ignore));
    let errnos = NetworkErrnos::of_platform();
    assert_eq!(errnos.host_down, libc::EHOSTDOWN);
    assert_eq!(errnos.host_unreachable, libc::EHOSTUNREACH);
    assert_eq!(errnos.net_down, libc::ENETDOWN);
    assert_eq!(errnos.net_unreachable, libc::ENETUNREACH);
}

#[test]
fn poll_interval_is_stretched_by_thousandths() {
    let interval = NtpDuration::from_exponent(4);
    assert_eq!(stretch_poll_interval(interval, 1000), interval);
    assert_eq!(stretch_poll_interval(interval, 1010).to_fixed_int(), 69_406_671_503);
    assert_eq!(stretch_poll_interval(interval, 1050).to_fixed_int(), 72_155_450_572);
    let mut state = task();
    state.peer.host_poll = interval;
    assert_eq!(state.update_poll_wait(1010).to_fixed_int(), 69_406_671_503);
}

#[test]
fn random_poll_interval_is_stretched_by_one_to_five_hundredths() {
    let interval = NtpDuration::from_exponent(6);
    let low = stretch_poll_interval(interval, 1010);
    let high = stretch_poll_interval(interval, 1050);
    let mut seen = Vec::new();
    for _ in 0..500 {
        let wait = randomize_poll_interval(interval);
        assert!(low <= wait && wait <= high);
        assert!((0..=50).any(|s| stretch_poll_interval(interval, 1000 + s) == wait));
        if !seen.contains(&wait) {
            seen.push(wait);
        }
    }
    // the stretch is drawn anew each time
    assert!(seen.len() > 1);
}

#[test]
fn first_poll_tells_the_system_nothing() {
    let mut state = task();
    let (result, message) = state.handle_poll(at(100));
    assert_eq!(result, PollResult::Polled);
    assert!(message.is_none());
    assert_eq!(state.last_send_timestamp, Some(at(100)));
    assert_eq!(state.polls_sent, 1);
    assert_eq!(state.peer.out_date, at(100));
    assert_eq!(state.peer.next_date, at(116));
    assert_eq!(state.index, PeerId { index: 7 });
}

#[test]
fn later_polls_tell_the_system_the_state_of_the_peer() {
    let mut state = task();
    state.handle_poll(at(100));
    let (result, message) = state.handle_poll(at(116));
    assert_eq!(result, PollResult::Polled);
    match message {
        Some(MsgForSystem::UpdatedSnapshot(index, snapshot)) => {
            assert_eq!(index, PeerId { index: 7 });
            assert_eq!(snapshot.out_date, at(116));
            assert_eq!(snapshot.next_date, state.peer.next_date);
        }
        _ => panic!("the system was not told"),
    }
    assert_eq!(state.last_send_timestamp, Some(at(116)));
    assert_eq!(state.polls_sent, 2);
}

#[test]
fn eight_unanswered_polls_make_the_peer_unreachable() {
    let mut state = task();
    for poll in 0..8 {
        let (result, _) = state.handle_poll(at(100 + 16 * poll));
        assert_eq!(result, PollResult::Polled);
    }
    let before = state;
    let (result, message) = state.handle_poll(at(300));
    assert_eq!(result, PollResult::Unreachable);
    assert!(message.is_none());
    assert_eq!(state.peer.out_date, before.peer.out_date);
    assert_eq!(state.polls_sent, 8);
    assert_eq!(state.last_send_timestamp, before.last_send_timestamp);
    let step = state.after_poll(result);
    assert!(!step.proceed);
    assert!(matches!(step.message, Some(MsgForSystem::Unreachable(PeerId { index: 7 }))));
}

#[test]
fn answered_poll_keeps_the_peer_reachable() {
    let system = synchronized();
    let mut state = task();
    for poll in 0..30u64 {
        let now = at(100 + 64 * poll);
        let (result, _) = state.handle_poll(now);
        assert_eq!(result, PollResult::Polled);
        // every eighth poll is answered
        if poll % 8 == 0 {
            let (result, message) = state.handle_packet(system, Ok(answer()), now, now, now);
            assert_eq!(result, PacketResult::Handled);
            assert!(message.is_some());
        }
    }
    // eight polls without an answer follow
    for poll in 30..33u64 {
        let (result, _) = state.handle_poll(at(100 + 64 * poll));
        assert_eq!(result, PollResult::Polled);
    }
    let (result, _) = state.handle_poll(at(100 + 64 * 33));
    assert_eq!(result, PollResult::Unreachable);
}

#[test]
fn poll_goes_on_unless_the_network_is_gone() {
    let mut state = task();
    state.handle_poll(at(100));
    assert_eq!(state.poll_sent_with(SendOutcome::Sent(None), &ERRNOS), PollResult::Polled);
    assert_eq!(state.last_send_timestamp, Some(at(100)));
    // the time that the kernel took replaces the time that was read before
    assert_eq!(state.poll_sent_with(SendOutcome::Sent(Some(at(101))), &ERRNOS), PollResult::Polled);
    assert_eq!(state.last_send_timestamp, Some(at(101)));
    assert_eq!(state.poll_sent_with(SendOutcome::NoSocket, &ERRNOS), PollResult::NetworkGone);
    assert_eq!(state.poll_sent_with(SendOutcome::Failed(None), &ERRNOS), PollResult::Polled);
    assert_eq!(state.poll_sent_with(SendOutcome::Failed(Some(9)), &ERRNOS), PollResult::Polled);
    for code in 1..=4 {
        assert_eq!(
            state.poll_sent_with(SendOutcome::Failed(Some(code)), &ERRNOS),
            PollResult::NetworkGone
        );
    }
    assert_eq!(state.last_send_timestamp, Some(at(101)));
    assert_eq!(state.polls_sent, 1);
}

#[test]
fn poll_on_the_platform() {
    let mut state = task();
    assert_eq!(state.poll_sent(SendOutcome::Sent(Some(at(3)))), PollResult::Polled);
    assert_eq!(state.last_send_timestamp, Some(at(3)));
    assert_eq!(state.poll_sent(SendOutcome::NoSocket), PollResult::NetworkGone);
    assert_eq!(state.poll_sent(SendOutcome::Failed(None)), PollResult::Polled);
    assert_eq!(state.poll_sent(SendOutcome::Failed(Some(libc::EINTR))), PollResult::Polled);
    assert_eq!(
        state.poll_sent(SendOutcome::Failed(Some(libc::ENETUNREACH))),
        PollResult::NetworkGone
    );
    assert_eq!(
        state.poll_sent(SendOutcome::Failed(Some(libc::EHOSTDOWN))),
        PollResult::NetworkGone
    );
}

#[test]
fn task_steps_after_a_poll() {
    let state = task();
    let step = state.after_poll(PollResult::Polled);
    assert!(step.proceed && step.message.is_none() && !step.close_socket);
    let step = state.after_poll(PollResult::NetworkGone);
    assert!(!step.proceed && !step.close_socket);
    assert!(matches!(step.message, Some(MsgForSystem::NetworkIssue(PeerId { index: 7 }))));
    let step = state.after_poll(PollResult::Unreachable);
    assert!(!step.proceed && !step.close_socket);
    assert!(matches!(step.message, Some(MsgForSystem::Unreachable(PeerId { index: 7 }))));
}

#[test]
fn answer_gives_a_new_measurement() {
    let system = SystemSnapshot::default();
    let mut state = task();
    state.handle_poll(at(100));
    let mut header = answer();
    // the origin timestamp of the packet is not the time at which the poll left
    header.origin_timestamp = NtpTimestamp::from_fixed_int(0xdead_beef);
    header.receive_timestamp = at(101);
    header.transmit_timestamp = at(102);
    header.precision = -32;
    let (result, message) = state.handle_packet(system, Ok(header), at(104), at(100), at(103));
    assert_eq!(result, PacketResult::Handled);
    match message {
        Some(MsgForSystem::NewMeasurement(index, snapshot, measurement)) => {
            assert_eq!(index, PeerId { index: 7 });
            assert_eq!(measurement.offset.to_fixed_int(), SECOND);
            assert_eq!(measurement.delay.to_fixed_int(), 2 * SECOND);
            // one unit, the precision of the system, and the drift in three seconds
            assert_eq!(measurement.dispersion.to_fixed_int(), 1 + 16_384 + 193_273);
            assert_eq!(measurement.time, at(104));
            assert_eq!(snapshot.statistics, state.peer.statistics);
            assert_eq!(snapshot.statistics.offset.to_fixed_int(), SECOND);
            assert_eq!(snapshot.statistics.delay.to_fixed_int(), 2 * SECOND);
            assert_eq!(snapshot.statistics.jitter.to_fixed_int(), 16_384);
            assert_eq!(snapshot.time, at(104));
        }
        _ => panic!("the system was not told of a measurement"),
    }
    assert_eq!(state.peer.last_packet.origin_timestamp, at(100));
    assert_eq!(state.peer.last_measurements.register[0].time, at(104));
    assert!(state.peer.reach.is_reachable());
}

#[test]
fn stale_answer_gives_a_snapshot_only() {
    let system = synchronized();
    let mut state = task();
    state.handle_poll(at(100));
    let (_, message) = state.handle_packet(system, Ok(answer()), at(101), at(100), at(101));
    assert!(matches!(message, Some(MsgForSystem::NewMeasurement(_, _, _))));
    // the same answer again, at the same time on the clock
    let (result, message) = state.handle_packet(system, Ok(answer()), at(101), at(100), at(101));
    assert_eq!(result, PacketResult::Handled);
    match message {
        Some(MsgForSystem::UpdatedSnapshot(index, snapshot)) => {
            assert_eq!(index, PeerId { index: 7 });
            assert_eq!(snapshot.time, at(101));
        }
        _ => panic!("the system was not told of the snapshot"),
    }
}

#[test]
fn kiss_of_death_ends_the_task() {
    let mut state = task();
    state.handle_poll(at(100));
    let before = state;
    let (result, message) = state.handle_packet(
        SystemSnapshot::default(),
        Err(IgnoreReason::KissDemobilize),
        at(101),
        at(100),
        at(101),
    );
    assert_eq!(result, PacketResult::Demobilize);
    assert!(matches!(message, Some(MsgForSystem::MustDemobilize(PeerId { index: 7 }))));
    assert_eq!(state.peer.last_packet, before.peer.last_packet);
    assert_eq!(state.peer.reach, before.peer.reach);
}

#[test]
fn packet_without_a_measurement_is_passed_over() {
    let mut state = task();
    state.handle_poll(at(100));
    for reason in
        [IgnoreReason::Unsynchronized, IgnoreReason::InvalidHeader, IgnoreReason::UnsupportedMode]
    {
        let (result, message) =
            state.handle_packet(SystemSnapshot::default(), Err(reason), at(101), at(100), at(101));
        assert_eq!(result, PacketResult::Handled);
        assert!(message.is_none());
    }
    let mut unsynchronized = answer();
    unsynchronized.leap = NtpLeapIndicator::Unknown;
    let mut broadcast = answer();
    broadcast.mode = NtpAssociationMode::Broadcast;
    for header in [unsynchronized, broadcast] {
        let (result, message) =
            state.handle_packet(SystemSnapshot::default(), Ok(header), at(101), at(100), at(101));
        assert_eq!(result, PacketResult::Handled);
        assert!(message.is_none());
        assert_eq!(state.peer.last_packet.leap, header.leap);
        assert_eq!(state.peer.last_packet.origin_timestamp, at(100));
    }
    assert!(state.peer.last_measurements.register[0].is_dummy());
}

#[test]
fn datagram_before_any_poll_is_dropped() {
    let mut state = task();
    let datagram =
        Datagram::Packet { parsed: Ok(answer()), recv_timestamp: at(5), local_clock_time: at(6) };
    let step = state.handle_datagram(SystemSnapshot::default(), datagram);
    assert!(step.proceed && step.message.is_none() && !step.close_socket);
    assert_eq!(state.peer.last_packet, NtpHeader::default());
    assert!(!state.peer.reach.is_reachable());
}

#[test]
fn datagram_after_a_poll_is_handled() {
    let mut state = task();
    state.handle_poll(at(100));
    let datagram = Datagram::Packet {
        parsed: Ok(answer()),
        recv_timestamp: at(101),
        local_clock_time: at(102),
    };
    let step = state.handle_datagram(SystemSnapshot::default(), datagram);
    assert!(step.proceed);
    // no more packets are expected
    assert!(step.close_socket);
    assert!(matches!(step.message, Some(MsgForSystem::NewMeasurement(PeerId { index: 7 }, _, _))));
    assert_eq!(state.peer.last_packet.origin_timestamp, at(100));
    assert_eq!(state.peer.time, at(102));

    // a packet that gives no measurement leaves the socket open
    let mut unsynchronized = answer();
    unsynchronized.stratum = 16;
    let datagram = Datagram::Packet {
        parsed: Ok(unsynchronized),
        recv_timestamp: at(103),
        local_clock_time: at(104),
    };
    let step = state.handle_datagram(SystemSnapshot::default(), datagram);
    assert!(step.proceed && step.message.is_none() && !step.close_socket);

    let datagram = Datagram::Packet {
        parsed: Err(IgnoreReason::KissDemobilize),
        recv_timestamp: at(105),
        local_clock_time: at(106),
    };
    let step = state.handle_datagram(SystemSnapshot::default(), datagram);
    assert!(!step.proceed && !step.close_socket);
    assert!(matches!(step.message, Some(MsgForSystem::MustDemobilize(PeerId { index: 7 }))));
}

#[test]
fn datagram_of_no_use_changes_nothing() {
    let mut state = task();
    state.handle_poll(at(100));
    let before = state;
    let step = state.handle_datagram(SystemSnapshot::default(), Datagram::Ignore);
    assert!(step.proceed && step.message.is_none() && !step.close_socket);
    let step = state.handle_datagram(SystemSnapshot::default(), Datagram::NetworkGone);
    assert!(!step.proceed && !step.close_socket);
    assert!(matches!(step.message, Some(MsgForSystem::NetworkIssue(PeerId { index: 7 }))));
    assert_eq!(state.peer.last_packet, before.peer.last_packet);
    assert_eq!(state.peer.reach, before.peer.reach);
    assert_eq!(state.last_send_timestamp, before.last_send_timestamp);
}
