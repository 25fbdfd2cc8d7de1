//! The reachability register: which of the last eight polls were answered.

use vstd::prelude::*;

verus! {

/// What happens to the reachability register.
#[derive(Clone, Copy, Debug, PartialEq, Eq, Structural)]
pub enum ReachEvent {
    /// A packet was sent to the peer.
    Poll,
    /// A valid packet arrived from the peer.
    Received,
}

/// The number of polls that a register with the bits `bits` stays nonzero for, if no packet
/// arrives: eight less the place of its lowest set bit.
pub open spec fn polls_left_of(bits: u8) -> int {
    if bits & 0x01 != 0 {
        8
    } else if bits & 0x02 != 0 {
        7
    } else if bits & 0x04 != 0 {
        6
    } else if bits & 0x08 != 0 {
        5
    } else if bits & 0x10 != 0 {
        4
    } else if bits & 0x20 != 0 {
        3
    } else if bits & 0x40 != 0 {
        2
    } else if bits & 0x80 != 0 {
        1
    } else {
        0
    }
}

/// Whether a packet arrived during `events`.
pub open spec fn received(events: Seq<ReachEvent>) -> bool {
    exists|i: int| 0 <= i < events.len() && events[i] == ReachEvent::Received
}

/// Whether a packet arrived during the last eight of `events`.
pub open spec fn received_recently(events: Seq<ReachEvent>) -> bool {
    exists|i: int|
        0 <= i < events.len() && events.len() - 8 <= i && events[i] == ReachEvent::Received
}

/// The number of events since the last arrival of a packet, if one arrived.
pub open spec fn since_received(events: Seq<ReachEvent>) -> Option<nat>
    decreases events.len(),
{
    if events.len() == 0 {
        None
    } else if events.last() == ReachEvent::Received {
        Some(0)
    } else {
        match since_received(events.drop_last()) {
            Some(k) => Some(k + 1),
            None => None,
        }
    }
}

/// A shift register of eight bits. A poll shifts it to the left by one bit; a packet that
/// arrives sets its lowest bit. While any bit is set the peer counts as reachable.
#[derive(Clone, Copy, Debug, PartialEq, Eq, Structural)]
pub struct Reach {
    pub bits: u8,
}

impl Default for Reach {
    fn default() -> (r: Self)
        ensures
            r.bits == 0,
    {
        Reach { bits: 0 }
    }
}

impl Reach {
    /// Whether any of the last eight polls was answered.
    pub open spec fn reachable(self) -> bool {
        self.bits != 0
    }

    /// The register after a packet has arrived.
    pub open spec fn with_packet(self) -> Reach {
        Reach { bits: self.bits | 1 }
    }

    /// The register after a poll.
    pub open spec fn polled(self) -> Reach {
        Reach { bits: self.bits << 1u8 }
    }

    /// The register after one event.
    pub open spec fn step(self, event: ReachEvent) -> Reach {
        match event {
            ReachEvent::Poll => self.polled(),
            ReachEvent::Received => self.with_packet(),
        }
    }

    /// The register after `events`, first to last.
    pub open spec fn after(self, events: Seq<ReachEvent>) -> Reach
        decreases events.len(),
    {
        if events.len() == 0 {
            self
        } else {
            self.after(events.drop_last()).step(events.last())
        }
    }

    /// The number of polls that the register stays nonzero for, if no packet arrives.
    pub open spec fn polls_left(self) -> int {
        polls_left_of(self.bits)
    }

    pub fn is_reachable(&self) -> (r: bool)
        ensures
            r == self.reachable(),
    {
        self.bits != 0
    }

    /// A packet has just arrived, so the peer is reachable.
    pub fn received_packet(&mut self)
        ensures
            *final(self) == old(self).with_packet(),
            final(self).reachable(),
    {
        let bits: u8 = self.bits;
        assert(bits | 1 != 0) by (bit_vector);
        self.bits = bits | 1;
    }

    /// A packet has been sent: what arrived earlier counts for one poll less.
    pub fn poll(&mut self)
        ensures
            *final(self) == old(self).polled(),
    {
        self.bits = self.bits << 1u8;
    }
}

/// A register is reachable while it has polls left. A packet that arrives gives it eight; a
/// poll takes one away.
pub proof fn lemma_polls_left(r: Reach)
    ensures
        r.reachable() <==> r.polls_left() > 0,
        0 <= r.polls_left() <= 8,
        r.with_packet().polls_left() == 8,
        r.polled().polls_left() == if r.polls_left() > 0 {
            r.polls_left() - 1
        } else {
            0
        },
{
    let b = r.bits;
    assert(b != 0 <==> polls_left_of(b) > 0) by (bit_vector);
    assert(polls_left_of(b | 1) == 8) by (bit_vector);
    assert(polls_left_of(b << 1u8) == if polls_left_of(b) > 0 {
        polls_left_of(b) - 1
    } else {
        0
    }) by (bit_vector);
}

/// The count of events since the last arrival points at that arrival, and nothing arrived
/// after it; where there is no count, nothing arrived at all.
pub proof fn lemma_since_received(events: Seq<ReachEvent>)
    ensures
        match since_received(events) {
            Some(k) => {
                &&& k < events.len()
                &&& events[events.len() - 1 - k] == ReachEvent::Received
                &&& forall|i: int|
                    events.len() - 1 - k < i < events.len() ==> events[i] != ReachEvent::Received
            },
            None => !received(events),
        },
        received(events) <==> since_received(events) is Some,
        received_recently(events) <==> (since_received(events) matches Some(k) && k < 8),
    decreases events.len(),
{
    if events.len() > 0 {
        let before = events.drop_last();
        lemma_since_received(before);
        if events.last() != ReachEvent::Received {
            match since_received(before) {
                Some(k) => {
                    assert forall|i: int| events.len() - 1 - (k + 1) < i < events.len() implies events[i]
                        != ReachEvent::Received by {
                        if i < before.len() {
                            assert(before[i] == events[i]);
                        }
                    }
                },
                None => {
                    assert forall|i: int| 0 <= i < events.len() implies events[i]
                        != ReachEvent::Received by {
                        if i < before.len() {
                            assert(before[i] == events[i]);
                        }
                    }
                },
            }
        }
    }
}

/// After any events the register has eight polls left less the events since the last
/// arrival; if nothing arrived, what it had at first less the number of events.
pub proof fn lemma_polls_left_after(r: Reach, events: Seq<ReachEvent>)
    ensures
        r.after(events).polls_left() == match since_received(events) {
            Some(k) => if k < 8 {
                8 - k
            } else {
                0
            },
            None => if r.polls_left() > events.len() {
                r.polls_left() - events.len()
            } else {
                0
            },
        },
    decreases events.len(),
{
    if events.len() > 0 {
        lemma_polls_left_after(r, events.drop_last());
        lemma_polls_left(r.after(events.drop_last()));
    }
}

/// After any events the peer is reachable if and only if a packet arrived during the last
/// eight of them, or none arrived at all and the register had more polls left at first than
/// there were events.
pub proof fn lemma_reachable_after(r: Reach, events: Seq<ReachEvent>)
    ensures
        r.after(events).reachable() <==> (received_recently(events) || (!received(events)
            && r.polls_left() > events.len())),
{
    lemma_polls_left_after(r, events);
    lemma_since_received(events);
    lemma_polls_left(r.after(events));
}

/// Eight events use up what a register held at first, whatever it was; a fresh register
/// holds nothing to use up.
pub proof fn lemma_history_used_up(r: Reach, events: Seq<ReachEvent>)
    requires
        events.len() >= 8 || r.bits == 0,
    ensures
        r.polls_left() <= events.len(),
{
    lemma_polls_left(r);
}

/// The peer is reachable if and only if a packet arrived during the last eight events,
/// once the events have used up or overwritten what the register held at first: a packet
/// has arrived, or as many polls have gone out as the register could last. Until then a
/// register may be reachable by a bit that it held before the events.
pub proof fn lemma_reachable_iff_received_recently(r: Reach, events: Seq<ReachEvent>)
    requires
        received(events) || r.polls_left() <= events.len(),
    ensures
        r.after(events).reachable() <==> received_recently(events),
{
    lemma_reachable_after(r, events);
}

/// The number of polls among `events`.
pub open spec fn polls_in(events: Seq<ReachEvent>) -> nat
    decreases events.len(),
{
    if events.len() == 0 {
        0
    } else if events.last() == ReachEvent::Poll {
        polls_in(events.drop_last()) + 1
    } else {
        polls_in(events.drop_last())
    }
}

/// Whether the last `k` of `events` are polls.
pub open spec fn ends_with_polls(events: Seq<ReachEvent>, k: int) -> bool {
    &&& k <= events.len()
    &&& forall|i: int| events.len() - k <= i < events.len() ==> events[i] == ReachEvent::Poll
}

/// There are no more polls than events, and no fewer than the events end with.
pub proof fn lemma_polls_in(events: Seq<ReachEvent>, k: int)
    requires
        0 <= k,
    ensures
        polls_in(events) <= events.len(),
        ends_with_polls(events, k) ==> polls_in(events) >= k,
    decreases events.len(),
{
    if events.len() > 0 {
        let before = events.drop_last();
        if k > 0 && ends_with_polls(events, k) {
            lemma_polls_in(before, k - 1);
        } else {
            lemma_polls_in(before, 0);
        }
    }
}

/// A peer that starts with a fresh register is unreachable after eight polls or more if
/// and only if the last eight events were polls: it has left eight polls in a row without
/// an answer.
pub proof fn lemma_unreachable_after_eight_polls(events: Seq<ReachEvent>)
    ensures
        (!(Reach { bits: 0 }).after(events).reachable() && polls_in(events) >= 8)
            <==> ends_with_polls(events, 8),
{
    let fresh = Reach { bits: 0 };
    lemma_history_used_up(fresh, events);
    lemma_reachable_iff_received_recently(fresh, events);
    lemma_polls_in(events, 8);
}

} // verus!
