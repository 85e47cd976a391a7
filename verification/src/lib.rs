//! Message channels that carry a correlation identity and say, as plain
//! values, which trace events each operation gives rise to.
//!
//! Two kinds of channel are offered: a bounded queue with many producers and
//! one consumer ([`mpsc`]) and a single-use handoff ([`oneshot`]). Both halves
//! of a channel share one [`trace::ChannelId`]; every operation takes the
//! [`trace::TraceLog`] it reports to as an explicit argument.

pub mod outside;
pub mod outcome;
pub mod trace;
pub mod mpsc;
pub mod oneshot;
