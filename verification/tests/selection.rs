use ntp_filter::duration::NtpDuration;
use ntp_filter::packet::ReferenceId;
use ntp_filter::peer::Peer;
use ntp_filter::selection::{
    construct_candidate_list, construct_survivors, filter_survivor, find_interval, select,
    CandidateTuple, EndpointType,
};
use ntp_filter::timestamp::NtpTimestamp;

fn default_peer() -> Peer {
    Peer::new(ReferenceId::from_int(0), ReferenceId::from_int(0))
}

#[test]
fn find_interval_simple() {
    let peer_1 = default_peer();
    let peer_2 = default_peer();
    let peer_3 = default_peer();

    let intervals = [
        CandidateTuple {
            peer: &peer_1,
            endpoint_type: EndpointType::Lower,
            edge: NtpDuration::from_fixed_int(-4),
        },
        CandidateTuple {
            peer: &peer_2,
            endpoint_type: EndpointType::Lower,
            edge: NtpDuration::from_fixed_int(-3),
        },
        CandidateTuple {
            peer: &peer_3,
            endpoint_type: EndpointType::Lower,
            edge: NtpDuration::from_fixed_int(-2),
        },
        CandidateTuple {
            peer: &peer_1,
            endpoint_type: EndpointType::Middle,
            edge: NtpDuration::from_fixed_int(-1),
        },
        CandidateTuple {
            peer: &peer_2,
            endpoint_type: EndpointType::Middle,
            edge: NtpDuration::from_fixed_int(0),
        },
        CandidateTuple {
            peer: &peer_3,
            endpoint_type: EndpointType::Middle,
            edge: NtpDuration::from_fixed_int(1),
        },
        CandidateTuple {
            peer: &peer_1,
            endpoint_type: EndpointType::Upper,
            edge: NtpDuration::from_fixed_int(2),
        },
        CandidateTuple {
            peer: &peer_2,
            endpoint_type: EndpointType::Upper,
            edge: NtpDuration::from_fixed_int(3),
        },
        CandidateTuple {
            peer: &peer_3,
            endpoint_type: EndpointType::Upper,
            edge: NtpDuration::from_fixed_int(4),
        },
    ];

    assert_eq!(
        find_interval(&intervals),
        Some((
            NtpDuration::from_fixed_int(-2),
            NtpDuration::from_fixed_int(2)
        ))
    );

    let survivors = construct_survivors(&intervals, NtpTimestamp::from_fixed_int(0));
    assert_eq!(survivors.len(), 3);
}

#[test]
fn find_interval_outlier() {
    let peer_1 = default_peer();
    let peer_2 = default_peer();
    let peer_3 = default_peer();

    let intervals = [
        CandidateTuple {
            peer: &peer_1,
            endpoint_type: EndpointType::Lower,
            edge: NtpDuration::from_fixed_int(-4),
        },
        CandidateTuple {
            peer: &peer_2,
            endpoint_type: EndpointType::Lower,
            edge: NtpDuration::from_fixed_int(-3),
        },
        CandidateTuple {
            peer: &peer_1,
            endpoint_type: EndpointType::Middle,
            edge: NtpDuration::from_fixed_int(-1),
        },
        CandidateTuple {
            peer: &peer_2,
            endpoint_type: EndpointType::Middle,
            edge: NtpDuration::from_fixed_int(0),
        },
        CandidateTuple {
            peer: &peer_1,
            endpoint_type: EndpointType::Upper,
            edge: NtpDuration::from_fixed_int(2),
        },
        CandidateTuple {
            peer: &peer_2,
            endpoint_type: EndpointType::Upper,
            edge: NtpDuration::from_fixed_int(3),
        },
        CandidateTuple {
            peer: &peer_3,
            endpoint_type: EndpointType::Lower,
            edge: NtpDuration::from_fixed_int(15),
        },
        CandidateTuple {
            peer: &peer_3,
            endpoint_type: EndpointType::Middle,
            edge: NtpDuration::from_fixed_int(16),
        },
        CandidateTuple {
            peer: &peer_3,
            endpoint_type: EndpointType::Upper,
            edge: NtpDuration::from_fixed_int(17),
        },
    ];

    assert_eq!(
        find_interval(&intervals),
        Some((
            NtpDuration::from_fixed_int(-3),
            NtpDuration::from_fixed_int(2)
        ))
    );

    let survivors = construct_survivors(&intervals, NtpTimestamp::from_fixed_int(0));
    assert_eq!(survivors.len(), 2);
}

#[test]
fn find_interval_low_precision_edgecase() {
    // One larger interval whose middle does not lie in
    // both smaller intervals, but whose middles do overlap.
    let peer_1 = default_peer();
    let peer_2 = default_peer();
    let peer_3 = default_peer();

    let intervals = [
        CandidateTuple {
            peer: &peer_1,
            endpoint_type: EndpointType::Lower,
            edge: NtpDuration::from_fixed_int(-10),
        },
        CandidateTuple {
            peer: &peer_2,
            endpoint_type: EndpointType::Lower,
            edge: NtpDuration::from_fixed_int(-3),
        },
        CandidateTuple {
            peer: &peer_1,
            endpoint_type: EndpointType::Middle,
            edge: NtpDuration::from_fixed_int(-2),
        },
        CandidateTuple {
            peer: &peer_3,
            endpoint_type: EndpointType::Lower,
            edge: NtpDuration::from_fixed_int(-1),
        },
        CandidateTuple {
            peer: &peer_2,
            endpoint_type: EndpointType::Middle,
            edge: NtpDuration::from_fixed_int(0),
        },
        CandidateTuple {
            peer: &peer_3,
            endpoint_type: EndpointType::Middle,
            edge: NtpDuration::from_fixed_int(2),
        },
        CandidateTuple {
            peer: &peer_2,
            endpoint_type: EndpointType::Upper,
            edge: NtpDuration::from_fixed_int(3),
        },
        CandidateTuple {
            peer: &peer_3,
            endpoint_type: EndpointType::Upper,
            edge: NtpDuration::from_fixed_int(5),
        },
        CandidateTuple {
            peer: &peer_1,
            endpoint_type: EndpointType::Upper,
            edge: NtpDuration::from_fixed_int(6),
        },
    ];

    assert_eq!(
        find_interval(&intervals),
        Some((
            NtpDuration::from_fixed_int(-3),
            NtpDuration::from_fixed_int(5)
        ))
    );

    let survivors = construct_survivors(&intervals, NtpTimestamp::from_fixed_int(0));
    assert_eq!(survivors.len(), 3);
}

#[test]
fn find_interval_interleaving_edgecase() {
    // Three partially overlapping intervals, where
    // the outer center's are not in each others interval.
    let peer_1 = default_peer();
    let peer_2 = default_peer();
    let peer_3 = default_peer();

    let intervals = [
        CandidateTuple {
            peer: &peer_1,
            endpoint_type: EndpointType::Lower,
            edge: NtpDuration::from_fixed_int(-5),
        },
        CandidateTuple {
            peer: &peer_2,
            endpoint_type: EndpointType::Lower,
            edge: NtpDuration::from_fixed_int(-3),
        },
        CandidateTuple {
            peer: &peer_1,
            endpoint_type: EndpointType::Middle,
            edge: NtpDuration::from_fixed_int(-2),
        },
        CandidateTuple {
            peer: &peer_3,
            endpoint_type: EndpointType::Lower,
            edge: NtpDuration::from_fixed_int(-1),
        },
        CandidateTuple {
            peer: &peer_2,
            endpoint_type: EndpointType::Middle,
            edge: NtpDuration::from_fixed_int(-0),
        },
        CandidateTuple {
            peer: &peer_1,
            endpoint_type: EndpointType::Upper,
            edge: NtpDuration::from_fixed_int(1),
        },
        CandidateTuple {
            peer: &peer_3,
            endpoint_type: EndpointType::Middle,
            edge: NtpDuration::from_fixed_int(2),
        },
        CandidateTuple {
            peer: &peer_2,
            endpoint_type: EndpointType::Upper,
            edge: NtpDuration::from_fixed_int(3),
        },
        CandidateTuple {
            peer: &peer_3,
            endpoint_type: EndpointType::Upper,
            edge: NtpDuration::from_fixed_int(5),
        },
    ];

    assert_eq!(
        find_interval(&intervals),
        Some((
            NtpDuration::from_fixed_int(-3),
            NtpDuration::from_fixed_int(3)
        ))
    );

    let survivors = construct_survivors(&intervals, NtpTimestamp::from_fixed_int(0));
    assert_eq!(survivors.len(), 3);
}

#[test]
fn find_interval_no_consensus() {
    // Three disjoint intervals
    let peer_1 = default_peer();
    let peer_2 = default_peer();
    let peer_3 = default_peer();

    let intervals = [
        CandidateTuple {
            peer: &peer_1,
            endpoint_type: EndpointType::Lower,
            edge: NtpDuration::from_fixed_int(-4),
        },
        CandidateTuple {
            peer: &peer_1,
            endpoint_type: EndpointType::Middle,
            edge: NtpDuration::from_fixed_int(-3),
        },
        CandidateTuple {
            peer: &peer_1,
            endpoint_type: EndpointType::Upper,
            edge: NtpDuration::from_fixed_int(-2),
        },
        CandidateTuple {
            peer: &peer_2,
            endpoint_type: EndpointType::Lower,
            edge: NtpDuration::from_fixed_int(-1),
        },
        CandidateTuple {
            peer: &peer_2,
            endpoint_type: EndpointType::Middle,
            edge: NtpDuration::from_fixed_int(-0),
        },
        CandidateTuple {
            peer: &peer_2,
            endpoint_type: EndpointType::Upper,
            edge: NtpDuration::from_fixed_int(1),
        },
        CandidateTuple {
            peer: &peer_3,
            endpoint_type: EndpointType::Lower,
            edge: NtpDuration::from_fixed_int(2),
        },
        CandidateTuple {
            peer: &peer_3,
            endpoint_type: EndpointType::Middle,
            edge: NtpDuration::from_fixed_int(3),
        },
        CandidateTuple {
            peer: &peer_3,
            endpoint_type: EndpointType::Upper,
            edge: NtpDuration::from_fixed_int(4),
        },
    ];

    assert_eq!(find_interval(&intervals), None);

    let survivors = construct_survivors(&intervals, NtpTimestamp::from_fixed_int(0));
    assert_eq!(survivors.len(), 0);
}

#[test]
fn find_interval_tiling() {
    // Three intervals whose midpoints are not in any of the others
    // but which still overlap somewhat.
    let peer_1 = default_peer();
    let peer_2 = default_peer();
    let peer_3 = default_peer();

    let intervals = [
        CandidateTuple {
            peer: &peer_1,
            endpoint_type: EndpointType::Lower,
            edge: NtpDuration::from_fixed_int(-5),
        },
        CandidateTuple {
            peer: &peer_1,
            endpoint_type: EndpointType::Middle,
            edge: NtpDuration::from_fixed_int(-3),
        },
        CandidateTuple {
            peer: &peer_2,
            endpoint_type: EndpointType::Lower,
            edge: NtpDuration::from_fixed_int(-2),
        },
        CandidateTuple {
            peer: &peer_1,
            endpoint_type: EndpointType::Upper,
            edge: NtpDuration::from_fixed_int(-1),
        },
        CandidateTuple {
            peer: &peer_2,
            endpoint_type: EndpointType::Middle,
            edge: NtpDuration::from_fixed_int(-0),
        },
        CandidateTuple {
            peer: &peer_3,
            endpoint_type: EndpointType::Lower,
            edge: NtpDuration::from_fixed_int(1),
        },
        CandidateTuple {
            peer: &peer_2,
            endpoint_type: EndpointType::Upper,
            edge: NtpDuration::from_fixed_int(2),
        },
        CandidateTuple {
            peer: &peer_3,
            endpoint_type: EndpointType::Middle,
            edge: NtpDuration::from_fixed_int(3),
        },
        CandidateTuple {
            peer: &peer_3,
            endpoint_type: EndpointType::Upper,
            edge: NtpDuration::from_fixed_int(5),
        },
    ];

    assert_eq!(find_interval(&intervals), None);

    let survivors = construct_survivors(&intervals, NtpTimestamp::from_fixed_int(0));
    assert_eq!(survivors.len(), 0);
}

const SECOND: i64 = 1 << 32;

fn peer_at(offset: i64, dispersion: i64, stratum: u8) -> Peer {
    let mut peer = default_peer();
    peer.statistics.offset = NtpDuration::from_fixed_int(offset);
    peer.statistics.dispersion = NtpDuration::from_fixed_int(dispersion);
    peer.last_packet.stratum = stratum;
    peer
}

// half of the least dispersion, which every root distance holds
const LEAST: i64 = 2_147_483;

#[test]
fn endpoint_values() {
    assert_eq!(EndpointType::Upper.to_value(), 1);
    assert_eq!(EndpointType::Middle.to_value(), 0);
    assert_eq!(EndpointType::Lower.to_value(), -1);
}

#[test]
fn candidate_list_is_sorted_by_edge() {
    let a = peer_at(10 * SECOND, SECOND, 2);
    let b = peer_at(11 * SECOND, 3 * SECOND, 2);
    let list = construct_candidate_list(&[&a, &b], NtpTimestamp::zero());
    let edges: Vec<i64> = list.iter().map(|c| c.edge.to_fixed_int()).collect();
    assert_eq!(
        edges,
        vec![
            8 * SECOND - LEAST,
            9 * SECOND - LEAST,
            10 * SECOND,
            11 * SECOND,
            11 * SECOND + LEAST,
            14 * SECOND + LEAST
        ]
    );
    let kinds: Vec<EndpointType> = list.iter().map(|c| c.endpoint_type).collect();
    assert_eq!(
        kinds,
        vec![
            EndpointType::Lower,
            EndpointType::Lower,
            EndpointType::Middle,
            EndpointType::Middle,
            EndpointType::Upper,
            EndpointType::Upper
        ]
    );
    assert!(std::ptr::eq(list[0].peer, &b));
    assert!(std::ptr::eq(list[1].peer, &a));
    assert!(std::ptr::eq(list[2].peer, &a));
    assert!(std::ptr::eq(list[3].peer, &b));
    assert!(std::ptr::eq(list[4].peer, &a));
    assert!(std::ptr::eq(list[5].peer, &b));
}

#[test]
fn candidate_list_keeps_equal_edges_in_order() {
    // two peers at the same place: upper, middle, lower of the first, then of the second
    let mut a = peer_at(0, 0, 2);
    let mut b = peer_at(0, 0, 2);
    // without a root distance every point lies on the offset
    a.last_packet.root_delay = NtpDuration::from_fixed_int(-LEAST * 2);
    b.last_packet.root_delay = NtpDuration::from_fixed_int(-LEAST * 2);
    a.statistics.dispersion = NtpDuration::from_fixed_int(-LEAST);
    b.statistics.dispersion = NtpDuration::from_fixed_int(-LEAST);
    assert_eq!(a.root_distance(NtpTimestamp::zero()).to_fixed_int(), 0);
    let list = construct_candidate_list(&[&a, &b], NtpTimestamp::zero());
    let kinds: Vec<EndpointType> = list.iter().map(|c| c.endpoint_type).collect();
    assert_eq!(
        kinds,
        vec![
            EndpointType::Upper,
            EndpointType::Middle,
            EndpointType::Lower,
            EndpointType::Upper,
            EndpointType::Middle,
            EndpointType::Lower
        ]
    );
    for (i, candidate) in list.iter().enumerate() {
        assert!(std::ptr::eq(candidate.peer, if i < 3 { &a } else { &b }));
    }
}

#[test]
fn candidate_list_of_no_peers_is_empty() {
    let list = construct_candidate_list(&[], NtpTimestamp::zero());
    assert!(list.is_empty());
    assert_eq!(find_interval(&list), None);
    assert!(construct_survivors(&list, NtpTimestamp::zero()).is_empty());
    assert!(select(&[], NtpTimestamp::zero()).is_empty());
}

#[test]
fn single_peer_agrees_with_itself() {
    let a = peer_at(10 * SECOND, SECOND, 3);
    let list = construct_candidate_list(&[&a], NtpTimestamp::zero());
    assert_eq!(
        find_interval(&list),
        Some((
            NtpDuration::from_fixed_int(9 * SECOND - LEAST),
            NtpDuration::from_fixed_int(11 * SECOND + LEAST)
        ))
    );
    let survivors = select(&[&a], NtpTimestamp::zero());
    assert_eq!(survivors.len(), 1);
    assert!(std::ptr::eq(survivors[0].p, &a));
    // one second for each stratum, and the root distance
    assert_eq!(survivors[0].metric.to_fixed_int(), 3 * SECOND + SECOND + LEAST);
}

#[test]
fn select_keeps_the_majority() {
    let a = peer_at(-SECOND, 3 * SECOND, 2);
    let b = peer_at(0, 3 * SECOND, 1);
    let c = peer_at(SECOND, 3 * SECOND, 2);
    let outlier = peer_at(100 * SECOND, SECOND, 2);
    let survivors = select(&[&a, &outlier, &b, &c], NtpTimestamp::zero());
    assert_eq!(survivors.len(), 3);
    // in the order of their offsets
    assert!(std::ptr::eq(survivors[0].p, &a));
    assert!(std::ptr::eq(survivors[1].p, &b));
    assert!(std::ptr::eq(survivors[2].p, &c));
    assert_eq!(survivors[0].metric.to_fixed_int(), 2 * SECOND + 3 * SECOND + LEAST);
    assert_eq!(survivors[1].metric.to_fixed_int(), SECOND + 3 * SECOND + LEAST);
}

#[test]
fn select_finds_no_majority_among_strangers() {
    let a = peer_at(-10 * SECOND, SECOND, 2);
    let b = peer_at(0, SECOND, 2);
    let c = peer_at(10 * SECOND, SECOND, 2);
    assert!(select(&[&a, &b, &c], NtpTimestamp::zero()).is_empty());
    // two peers that disagree have no majority either
    assert!(select(&[&a, &b], NtpTimestamp::zero()).is_empty());
}

#[test]
fn survivor_must_be_a_middle_within_the_interval() {
    let peer = peer_at(0, 0, 4);
    let now = NtpTimestamp::zero();
    let low = NtpDuration::from_fixed_int(-5);
    let high = NtpDuration::from_fixed_int(5);
    let at = |endpoint_type, edge| CandidateTuple {
        peer: &peer,
        endpoint_type,
        edge: NtpDuration::from_fixed_int(edge),
    };
    assert!(filter_survivor(&at(EndpointType::Middle, 0), now, low, high).is_some());
    assert!(filter_survivor(&at(EndpointType::Middle, -5), now, low, high).is_some());
    assert!(filter_survivor(&at(EndpointType::Middle, 5), now, low, high).is_some());
    assert!(filter_survivor(&at(EndpointType::Middle, -6), now, low, high).is_none());
    assert!(filter_survivor(&at(EndpointType::Middle, 6), now, low, high).is_none());
    assert!(filter_survivor(&at(EndpointType::Upper, 0), now, low, high).is_none());
    assert!(filter_survivor(&at(EndpointType::Lower, 0), now, low, high).is_none());
    let survivor = filter_survivor(&at(EndpointType::Middle, 0), now, low, high).unwrap();
    assert!(std::ptr::eq(survivor.p, &peer));
    assert_eq!(survivor.metric.to_fixed_int(), 4 * SECOND + LEAST);
}

// a small generator of numbers that look random, the same on every run
struct Numbers(u64);

impl Numbers {
    fn next(&mut self) -> u64 {
        self.0 = self.0.wrapping_mul(6364136223846793005).wrapping_add(1442695040888963407);
        self.0 >> 33
    }

    fn below(&mut self, bound: u64) -> u64 {
        self.next() % bound
    }
}

// the two sweeps written out plainly, the ends carried over from round to round
fn plain_sweep(list: &[CandidateTuple]) -> Option<(NtpDuration, NtpDuration)> {
    let n = list.len() / 3;
    let mut low = None;
    let mut high = None;
    let mut allow = 0;
    while 2 * allow < n {
        let mut found = 0;
        let mut chime: i64 = 0;
        for tuple in list {
            chime -= tuple.endpoint_type.to_value() as i64;
            if chime >= (n - allow) as i64 {
                low = Some(tuple.edge);
                break;
            }
            if tuple.endpoint_type == EndpointType::Middle {
                found += 1;
            }
        }
        chime = 0;
        for tuple in list.iter().rev() {
            chime += tuple.endpoint_type.to_value() as i64;
            if chime >= (n - allow) as i64 {
                high = Some(tuple.edge);
                break;
            }
            if tuple.endpoint_type == EndpointType::Middle {
                found += 1;
            }
        }
        if found <= allow {
            if let (Some(l), Some(h)) = (low, high) {
                return Some((l, h));
            }
        }
        allow += 1;
    }
    None
}

#[test]
fn find_interval_agrees_with_a_plain_sweep_over_peers() {
    let mut numbers = Numbers(1);
    let mut found = 0;
    for _ in 0..2000 {
        let count = numbers.below(7) as usize;
        let peers: Vec<Peer> = (0..count)
            .map(|_| {
                peer_at(
                    numbers.below(20) as i64 * SECOND - 10 * SECOND,
                    numbers.below(6) as i64 * SECOND,
                    numbers.below(16) as u8,
                )
            })
            .collect();
        let references: Vec<&Peer> = peers.iter().collect();
        let list = construct_candidate_list(&references, NtpTimestamp::zero());
        assert_eq!(list.len(), 3 * count);
        assert!(list.windows(2).all(|pair| pair[0].edge <= pair[1].edge));
        let interval = find_interval(&list);
        assert_eq!(interval, plain_sweep(&list));
        let survivors = construct_survivors(&list, NtpTimestamp::zero());
        match interval {
            Some((low, high)) => {
                found += 1;
                assert!(low <= high);
                let within = peers
                    .iter()
                    .filter(|p| low <= p.statistics.offset && p.statistics.offset <= high)
                    .count();
                assert_eq!(survivors.len(), within);
                // the survivors are a majority
                assert!(2 * within > count);
            }
            None => assert!(survivors.is_empty()),
        }
    }
    assert!(found > 100);
}

#[test]
fn find_interval_agrees_with_a_plain_sweep_over_any_list() {
    let mut numbers = Numbers(2);
    let peer = default_peer();
    for _ in 0..5000 {
        let length = numbers.below(16) as usize;
        let list: Vec<CandidateTuple> = (0..length)
            .map(|_| CandidateTuple {
                peer: &peer,
                endpoint_type: match numbers.below(3) {
                    0 => EndpointType::Upper,
                    1 => EndpointType::Middle,
                    _ => EndpointType::Lower,
                },
                edge: NtpDuration::from_fixed_int(numbers.below(10) as i64 - 5),
            })
            .collect();
        assert_eq!(find_interval(&list), plain_sweep(&list));
    }
}
