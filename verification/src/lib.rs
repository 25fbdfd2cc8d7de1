//! The clock filter and the peer selection of an NTP client, verified.
//!
//! Each peer keeps the eight latest measurements of its server's clock. The clock filter
//! picks the measurement of smallest delay and takes offset, delay, dispersion and jitter
//! of the peer from the register. The selection finds the largest interval on which a
//! majority of the peers agree, and keeps the peers whose offsets lie in it.
//!
//! Time is kept in fixed point throughout, in units of 2^-32 seconds: [`duration`] holds
//! the signed durations, [`timestamp`] the timestamps. [`packet`] holds the header fields
//! that the filter reads, [`sample`] turns a header into a measurement, [`register`] keeps
//! the measurements and [`evaluator`] takes the statistics from them, with the help of
//! [`sorting`] and [`root`]. [`reach`] keeps track of which polls were answered.
//! [`peer`] holds the state of a peer with its poll schedule, [`selection`] selects among
//! peers, and [`task`] decides what the task that drives a peer does next. [`error`] holds
//! the errors of a packet parser.
//!
//! Every function is verified against its contract, but for five small functions in
//! [`task`] that call outside code: four read an error number of the platform from `libc`,
//! and one draws a random number with `rand`.

pub mod duration;
pub mod error;
pub mod evaluator;
pub mod packet;
pub mod peer;
pub mod reach;
pub mod register;
pub mod root;
pub mod sample;
pub mod selection;
pub mod sorting;
pub mod task;
pub mod timestamp;
