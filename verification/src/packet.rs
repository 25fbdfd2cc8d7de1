//! The fields of a parsed packet header that the clock filter reads.

use crate::duration::NtpDuration;
use crate::timestamp::NtpTimestamp;
use vstd::prelude::*;

verus! {

/// The warning of an impending leap second that a clock carries.
#[derive(Clone, Copy, Debug, PartialEq, Eq, Structural)]
pub enum NtpLeapIndicator {
    NoWarning,
    /// The last minute of the day has 61 seconds.
    Last61,
    /// The last minute of the day has 59 seconds.
    Last59,
    /// The clock has never been synchronized.
    Unknown,
}

impl NtpLeapIndicator {
    /// Every indicator but `Unknown` tells of a synchronized clock.
    pub open spec fn synchronized(self) -> bool {
        self != NtpLeapIndicator::Unknown
    }

    pub fn is_synchronized(&self) -> (r: bool)
        ensures
            r == self.synchronized(),
    {
        match self {
            NtpLeapIndicator::Unknown => false,
            _ => true,
        }
    }
}

/// The role in which the sender of a packet takes part in the protocol.
#[derive(Clone, Copy, Debug, PartialEq, Eq, Structural)]
pub enum NtpAssociationMode {
    Reserved,
    SymmetricActive,
    SymmetricPassive,
    Client,
    Server,
    Broadcast,
    Control,
    Private,
}

/// A 32-bit identifier of a server or of its reference clock.
#[derive(Clone, Copy, Debug, PartialEq, Eq, Structural)]
pub struct ReferenceId {
    pub id: u32,
}

impl ReferenceId {
    pub fn from_int(value: u32) -> (r: Self)
        ensures
            r.id == value,
    {
        ReferenceId { id: value }
    }

    pub fn to_int(self) -> (r: u32)
        ensures
            r == self.id,
    {
        self.id
    }
}

impl Default for ReferenceId {
    fn default() -> (r: Self)
        ensures
            r.id == 0,
    {
        ReferenceId { id: 0 }
    }
}

/// The largest stratum; it marks a server that is not synchronized.
pub const MAX_STRATUM: u8 = 16;

/// A parsed packet header.
#[derive(Clone, Copy, Debug, PartialEq, Eq, Structural)]
pub struct NtpHeader {
    pub leap: NtpLeapIndicator,
    pub mode: NtpAssociationMode,
    pub stratum: u8,
    /// The poll interval of the sender, as an exponent of two in seconds.
    pub poll: i8,
    /// The precision of the sender's clock, as an exponent of two in seconds.
    pub precision: i8,
    pub root_delay: NtpDuration,
    pub root_dispersion: NtpDuration,
    pub reference_id: ReferenceId,
    pub reference_timestamp: NtpTimestamp,
    /// When the request left the client, by the client's clock.
    pub origin_timestamp: NtpTimestamp,
    /// When the request reached the server, by the server's clock.
    pub receive_timestamp: NtpTimestamp,
    /// When the reply left the server, by the server's clock.
    pub transmit_timestamp: NtpTimestamp,
}

impl NtpHeader {
    /// The header of a client that knows nothing yet: every number zero.
    pub open spec fn blank() -> NtpHeader {
        NtpHeader {
            leap: NtpLeapIndicator::NoWarning,
            mode: NtpAssociationMode::Client,
            stratum: 0,
            poll: 0,
            precision: 0,
            root_delay: NtpDuration::of(0),
            root_dispersion: NtpDuration::of(0),
            reference_id: ReferenceId { id: 0 },
            reference_timestamp: NtpTimestamp::of(0),
            origin_timestamp: NtpTimestamp::of(0),
            receive_timestamp: NtpTimestamp::of(0),
            transmit_timestamp: NtpTimestamp::of(0),
        }
    }

    pub fn new() -> (r: Self)
        ensures
            r == Self::blank(),
    {
        NtpHeader {
            leap: NtpLeapIndicator::NoWarning,
            mode: NtpAssociationMode::Client,
            stratum: 0,
            poll: 0,
            precision: 0,
            root_delay: NtpDuration::zero(),
            root_dispersion: NtpDuration::zero(),
            reference_id: ReferenceId::from_int(0),
            reference_timestamp: NtpTimestamp::zero(),
            origin_timestamp: NtpTimestamp::zero(),
            receive_timestamp: NtpTimestamp::zero(),
            transmit_timestamp: NtpTimestamp::zero(),
        }
    }
}

impl Default for NtpHeader {
    fn default() -> (r: Self)
        ensures
            r == Self::blank(),
    {
        NtpHeader::new()
    }
}

} // verus!
