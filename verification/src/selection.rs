//! The selection among peers: the largest interval on which a majority of them agree, and
//! the peers whose offsets lie in it.

use crate::duration::NtpDuration;
use crate::peer::{max_distance, Peer};
use crate::sorting::{stable_sort, stable_sorted, Keyed};
use crate::timestamp::NtpTimestamp;
use vstd::prelude::*;

verus! {

/// Which point of a peer's correctness interval a candidate stands for.
#[derive(Clone, Copy, Debug, PartialEq, Eq, Structural)]
pub enum EndpointType {
    /// The upper end: the offset plus the root distance.
    Upper,
    /// The offset itself.
    Middle,
    /// The lower end: the offset less the root distance.
    Lower,
}

impl EndpointType {
    /// What the point counts in a sweep: `1` for an upper end, `-1` for a lower end, `0`
    /// for a middle.
    pub open spec fn value(self) -> int {
        match self {
            EndpointType::Upper => 1,
            EndpointType::Middle => 0,
            EndpointType::Lower => -1,
        }
    }

    pub fn to_value(self) -> (r: i8)
        ensures
            r == self.value(),
    {
        match self {
            EndpointType::Upper => 1,
            EndpointType::Middle => 0,
            EndpointType::Lower => -1,
        }
    }
}

/// One point of the correctness interval of a peer.
#[derive(Clone, Copy, Debug)]
pub struct CandidateTuple<'a> {
    pub peer: &'a Peer,
    pub endpoint_type: EndpointType,
    /// Where the point lies.
    pub edge: NtpDuration,
}

impl<'a> Keyed for CandidateTuple<'a> {
    /// Candidates are ordered by where they lie.
    open spec fn key(&self) -> int {
        self.edge@
    }

    fn sort_key(&self) -> (k: i64) {
        self.edge.to_fixed_int()
    }
}

/// A peer that the selection keeps, with the number by which the kept peers are ranked.
#[derive(Clone, Copy, Debug)]
pub struct SurvivorTuple<'a> {
    pub p: &'a Peer,
    /// One second for each stratum, plus the root distance: a lower stratum ranks first,
    /// then a smaller root distance.
    pub metric: NtpDuration,
}

/// The three points of the correctness interval of `peer` at `local_clock_time`: the upper
/// end, the middle and the lower end.
pub open spec fn endpoints_of_peer<'a>(peer: &'a Peer, local_clock_time: NtpTimestamp) -> Seq<
    CandidateTuple<'a>,
> {
    let offset = peer.statistics.offset;
    let distance = peer.root_distance_at(local_clock_time);
    seq![
        CandidateTuple { peer, endpoint_type: EndpointType::Upper, edge: offset.plus(distance) },
        CandidateTuple { peer, endpoint_type: EndpointType::Middle, edge: offset },
        CandidateTuple { peer, endpoint_type: EndpointType::Lower, edge: offset.minus(distance) },
    ]
}

/// The points of the correctness intervals of `peers`, peer by peer.
pub open spec fn endpoints_of<'a>(peers: Seq<&'a Peer>, local_clock_time: NtpTimestamp) -> Seq<
    CandidateTuple<'a>,
>
    decreases peers.len(),
{
    if peers.len() == 0 {
        Seq::empty()
    } else {
        endpoints_of(peers.drop_last(), local_clock_time) + endpoints_of_peer(
            peers.last(),
            local_clock_time,
        )
    }
}

/// The lower ends less the upper ends among the first `i` candidates.
pub open spec fn chime_below(list: Seq<CandidateTuple>, i: int) -> int
    decreases i,
{
    if i <= 0 {
        0
    } else {
        chime_below(list, i - 1) - list[i - 1].endpoint_type.value()
    }
}

/// The upper ends less the lower ends among the candidates from the `i`-th on.
pub open spec fn chime_above(list: Seq<CandidateTuple>, i: int) -> int
    decreases list.len() - i,
{
    if i >= list.len() {
        0
    } else {
        chime_above(list, i + 1) + list[i].endpoint_type.value()
    }
}

/// The number of middles among the first `i` candidates.
pub open spec fn middles_below(list: Seq<CandidateTuple>, i: int) -> int
    decreases i,
{
    if i <= 0 {
        0
    } else {
        middles_below(list, i - 1) + if list[i - 1].endpoint_type == EndpointType::Middle {
            1int
        } else {
            0int
        }
    }
}

/// The number of middles among the candidates from the `i`-th on.
pub open spec fn middles_above(list: Seq<CandidateTuple>, i: int) -> int
    decreases list.len() - i,
{
    if i >= list.len() {
        0
    } else {
        middles_above(list, i + 1) + if list[i].endpoint_type == EndpointType::Middle {
            1int
        } else {
            0int
        }
    }
}

/// Where a sweep from the low end stops that starts at `from`: at the first candidate with
/// which the lower ends passed exceed the upper ends passed by `need`; at the length of the
/// list if there is none.
pub open spec fn low_stop(list: Seq<CandidateTuple>, need: int, from: int) -> int
    decreases list.len() - from,
{
    if from >= list.len() {
        list.len() as int
    } else if chime_below(list, from + 1) >= need {
        from
    } else {
        low_stop(list, need, from + 1)
    }
}

/// Where a sweep from the high end stops that starts at `from`: at the first candidate with
/// which the upper ends passed exceed the lower ends passed by `need`; at `-1` if there is
/// none.
pub open spec fn high_stop(list: Seq<CandidateTuple>, need: int, from: int) -> int
    decreases from + 1,
{
    if from < 0 {
        -1
    } else if chime_above(list, from) >= need {
        from
    } else {
        high_stop(list, need, from - 1)
    }
}

/// The number of peers that `list` holds the points of.
pub open spec fn peer_count(list: Seq<CandidateTuple>) -> int {
    list.len() as int / 3
}

/// The number of middles that the two sweeps pass before they stop, where `allow` peers may
/// be wrong. Each of them is a peer whose offset lies outside the interval.
pub open spec fn falsetickers(list: Seq<CandidateTuple>, allow: int) -> int {
    let need = peer_count(list) - allow;
    middles_below(list, low_stop(list, need, 0)) + middles_above(
        list,
        high_stop(list, need, list.len() - 1) + 1,
    )
}

/// The interval that the two sweeps find where `allow` peers may be wrong, if both stop
/// within the list and pass no more than `allow` middles.
pub open spec fn interval_allowing(list: Seq<CandidateTuple>, allow: int) -> Option<
    (NtpDuration, NtpDuration),
> {
    let need = peer_count(list) - allow;
    let low = low_stop(list, need, 0);
    let high = high_stop(list, need, list.len() - 1);
    if falsetickers(list, allow) <= allow && low < list.len() && high >= 0 {
        Some((list[low].edge, list[high].edge))
    } else {
        None
    }
}

/// The interval found with the fewest wrong peers allowed, from `allow` on and short of
/// half the peers.
pub open spec fn interval_from(list: Seq<CandidateTuple>, allow: int) -> Option<
    (NtpDuration, NtpDuration),
>
    decreases peer_count(list) + 1 - 2 * allow,
{
    if 2 * allow >= peer_count(list) {
        None
    } else if interval_allowing(list, allow) is Some {
        interval_allowing(list, allow)
    } else {
        interval_from(list, allow + 1)
    }
}

/// The largest interval in which all but a minority of the correctness intervals overlap,
/// the minority as small as can be; `None` where there is no such interval.
pub open spec fn agreed_interval(list: Seq<CandidateTuple>) -> Option<(NtpDuration, NtpDuration)> {
    interval_from(list, 0)
}

/// What is kept of a candidate: the peer of a middle that lies within `low` and `high`.
pub open spec fn survivor_of<'a>(
    candidate: CandidateTuple<'a>,
    local_clock_time: NtpTimestamp,
    low: NtpDuration,
    high: NtpDuration,
) -> Option<SurvivorTuple<'a>> {
    if candidate.edge@ < low@ || candidate.edge@ > high@ || candidate.endpoint_type
        != EndpointType::Middle {
        None
    } else {
        Some(
            SurvivorTuple {
                p: candidate.peer,
                metric: NtpDuration::of(crate::duration::UNITS_PER_SECOND as int).times(
                    candidate.peer.last_packet.stratum as int,
                ).plus(candidate.peer.root_distance_at(local_clock_time)),
            },
        )
    }
}

/// What is kept of the candidates of `list`, in their order.
pub open spec fn surviving<'a>(
    list: Seq<CandidateTuple<'a>>,
    local_clock_time: NtpTimestamp,
    low: NtpDuration,
    high: NtpDuration,
) -> Seq<SurvivorTuple<'a>>
    decreases list.len(),
{
    if list.len() == 0 {
        Seq::empty()
    } else {
        let before = surviving(list.drop_last(), local_clock_time, low, high);
        match survivor_of(list.last(), local_clock_time, low, high) {
            Some(survivor) => before.push(survivor),
            None => before,
        }
    }
}

/// The peers whose offsets lie in the agreed interval; none where there is no such
/// interval.
pub open spec fn survivors_of<'a>(
    list: Seq<CandidateTuple<'a>>,
    local_clock_time: NtpTimestamp,
) -> Seq<SurvivorTuple<'a>> {
    match agreed_interval(list) {
        Some((low, high)) => surviving(list, local_clock_time, low, high),
        None => Seq::empty(),
    }
}

/// The points of the correctness intervals of the peers, in ascending order. Points that
/// lie at the same place stay in the order of the peers, and within one peer the upper end
/// comes before the middle and the middle before the lower end.
pub fn construct_candidate_list<'a>(
    valid_associations: &[&'a Peer],
    local_clock_time: NtpTimestamp,
) -> (r: Vec<CandidateTuple<'a>>)
    ensures
        r@ == stable_sorted(endpoints_of(valid_associations@, local_clock_time)),
        r@.len() == 3 * valid_associations@.len(),
        crate::sorting::ascending(r@),
        r@.to_multiset() == endpoints_of(valid_associations@, local_clock_time).to_multiset(),
{
    let mut candidate_list: Vec<CandidateTuple<'a>> = Vec::new();
    let mut i: usize = 0;
    while i < valid_associations.len()
        invariant
            i <= valid_associations.len(),
            candidate_list@ == endpoints_of(valid_associations@.take(i as int), local_clock_time),
            candidate_list@.len() == 3 * i,
        decreases valid_associations.len() - i,
    {
        let peer: &'a Peer = valid_associations[i];
        let offset = peer.statistics.offset;
        candidate_list.push(
            CandidateTuple {
                peer,
                endpoint_type: EndpointType::Upper,
                edge: offset + peer.root_distance(local_clock_time),
            },
        );
        candidate_list.push(CandidateTuple { peer, endpoint_type: EndpointType::Middle, edge: offset });
        candidate_list.push(
            CandidateTuple {
                peer,
                endpoint_type: EndpointType::Lower,
                edge: offset - peer.root_distance(local_clock_time),
            },
        );
        proof {
            assert(valid_associations@.take(i + 1).drop_last() =~= valid_associations@.take(
                i as int,
            ));
        }
        i = i + 1;
    }
    assert(valid_associations@.take(valid_associations.len() as int) =~= valid_associations@);
    proof {
        crate::sorting::lemma_stable_sorted(candidate_list@);
    }
    stable_sort(candidate_list.as_slice())
}

/// Finds the largest interval in which all but a minority of the correctness intervals
/// overlap.
///
/// With `allow` wrong peers allowed, a sweep from the low end stops at the first candidate
/// at which all but `allow` peers have begun, and a sweep from the high end at the first at
/// which all but `allow` have ended. A middle that either sweep passes is the offset of a
/// wrong peer. Where more than `allow` are passed, one more is allowed, as long as the
/// wrong peers stay a minority.
pub fn find_interval(chime_list: &[CandidateTuple]) -> (r: Option<(NtpDuration, NtpDuration)>)
    ensures
        r == agreed_interval(chime_list@),
{
    let len: usize = chime_list.len();
    let n: usize = len / 3;
    let mut allow: usize = 0;
    while 2 * allow < n
        invariant
            len == chime_list@.len(),
            n == peer_count(chime_list@),
            2 * allow <= n + 1,
            agreed_interval(chime_list@) == interval_from(chime_list@, allow as int),
        decreases n + 1 - 2 * allow,
    {
        let need: i128 = (n - allow) as i128;
        // falsetickers found in this round
        let mut found: i128 = 0;
        let mut chime: i128 = 0;
        let mut low: Option<NtpDuration> = None;
        let mut high: Option<NtpDuration> = None;

        // Sweep from the lowest candidate up to find the lower end. Any middle that is
        // passed on the way is a falseticker.
        let mut i: usize = 0;
        while i < len && low.is_none()
            invariant
                len == chime_list@.len(),
                i <= len,
                0 <= found <= i,
                low is None ==> -i <= chime <= i,
                low is None ==> chime == chime_below(chime_list@, i as int) && low_stop(
                    chime_list@,
                    need as int,
                    0,
                ) == low_stop(chime_list@, need as int, i as int),
                found == middles_below(chime_list@, i as int),
                low is Some ==> i < len && low_stop(chime_list@, need as int, 0) == i && low
                    == Some(chime_list@[i as int].edge),
            decreases (len - i) + if low is None { 1int } else { 0int },
        {
            let tuple = chime_list[i];
            chime = chime - tuple.endpoint_type.to_value() as i128;
            if chime >= need {
                low = Some(tuple.edge);
            } else {
                match tuple.endpoint_type {
                    EndpointType::Middle => {
                        found = found + 1;
                    },
                    _ => {},
                }
                i = i + 1;
            }
        }
        let ghost passed_below = found;

        // Sweep from the highest candidate down to find the upper end, in the same way.
        chime = 0;
        let mut j: usize = len;
        while j > 0 && high.is_none()
            invariant
                len == chime_list@.len(),
                j <= len,
                0 <= found - passed_below <= len - j,
                0 <= passed_below <= len,
                high is None ==> -(len - j) <= chime <= len - j,
                high is None ==> chime == chime_above(chime_list@, j as int) && high_stop(
                    chime_list@,
                    need as int,
                    len - 1,
                ) == high_stop(chime_list@, need as int, j - 1),
                found - passed_below == middles_above(chime_list@, j as int),
                high is Some ==> j >= 1 && high_stop(chime_list@, need as int, len - 1) == j - 1
                    && high == Some(chime_list@[j - 1].edge),
            decreases j + if high is None { 1int } else { 0int },
        {
            let tuple = chime_list[j - 1];
            chime = chime + tuple.endpoint_type.to_value() as i128;
            if chime >= need {
                high = Some(tuple.edge);
            } else {
                match tuple.endpoint_type {
                    EndpointType::Middle => {
                        found = found + 1;
                    },
                    _ => {},
                }
                j = j - 1;
            }
        }

        // with more falsetickers than allowed, try again and allow one more
        if found <= allow as i128 {
            // a lower and an upper end: the intersection is not empty
            match (low, high) {
                (Some(l), Some(h)) => {
                    return Some((l, h));
                },
                _ => {},
            }
        }
        allow = allow + 1;
    }
    None
}

/// Keeps the peer of a candidate if the candidate is the middle of its interval and lies
/// within `low` and `high`.
pub fn filter_survivor<'a>(
    candidate: &CandidateTuple<'a>,
    local_clock_time: NtpTimestamp,
    low: NtpDuration,
    high: NtpDuration,
) -> (r: Option<SurvivorTuple<'a>>)
    ensures
        r == survivor_of(*candidate, local_clock_time, low, high),
{
    let is_middle = match candidate.endpoint_type {
        EndpointType::Middle => true,
        _ => false,
    };
    if candidate.edge < low || candidate.edge > high || !is_middle {
        None
    } else {
        let p: &'a Peer = candidate.peer;
        let metric = max_distance() * (p.last_packet.stratum as i64) + p.root_distance(
            local_clock_time,
        );
        Some(SurvivorTuple { p, metric })
    }
}

/// Collects the peers whose offsets lie in the agreed interval.
pub fn construct_survivors<'a>(
    chime_list: &[CandidateTuple<'a>],
    local_clock_time: NtpTimestamp,
) -> (r: Vec<SurvivorTuple<'a>>)
    ensures
        r@ == survivors_of(chime_list@, local_clock_time),
{
    let mut survivors: Vec<SurvivorTuple<'a>> = Vec::new();
    match find_interval(chime_list) {
        Some((low, high)) => {
            let mut i: usize = 0;
            while i < chime_list.len()
                invariant
                    i <= chime_list.len(),
                    survivors@ == surviving(
                        chime_list@.take(i as int),
                        local_clock_time,
                        low,
                        high,
                    ),
                decreases chime_list.len() - i,
            {
                proof {
                    assert(chime_list@.take(i + 1).drop_last() =~= chime_list@.take(i as int));
                }
                match filter_survivor(&chime_list[i], local_clock_time, low, high) {
                    Some(survivor) => {
                        survivors.push(survivor);
                    },
                    None => {},
                }
                i = i + 1;
            }
            assert(chime_list@.take(chime_list.len() as int) =~= chime_list@);
        },
        None => {},
    }
    survivors
}

/// Selects among the peers that are fit: those whose offsets lie in the interval on which a
/// majority agrees at `local_clock_time`.
pub fn select<'a>(peers: &[&'a Peer], local_clock_time: NtpTimestamp) -> (r: Vec<SurvivorTuple<'a>>)
    ensures
        r@ == survivors_of(
            stable_sorted(endpoints_of(peers@, local_clock_time)),
            local_clock_time,
        ),
{
    let chime_list = construct_candidate_list(peers, local_clock_time);
    construct_survivors(chime_list.as_slice(), local_clock_time)
}

} // verus!
