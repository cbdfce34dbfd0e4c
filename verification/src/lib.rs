//! Transport layer beneath a binary mining-protocol stack.
//!
//! The crate turns an unreliable byte transport into a stream of typed
//! protocol messages and keeps a logical connection alive across failures:
//!
//! - [`backoff`] produces successive retry delays (a capped Fibonacci-scaled
//!   sequence by default);
//! - [`client`] drives repeated connection attempts, keeping an exact record
//!   of the current failure streak;
//! - [`framing`] names the per-dialect bundle of message, error and codec
//!   types that the generic pieces are written against;
//! - [`connection`] binds one transport stream's buffers to one codec and
//!   exposes typed send and receive;
//! - [`v2`] is one concrete dialect: a length-delimited frame codec over a
//!   four-byte header;
//! - [`bytebuf`] is the trusted boundary around the byte buffers the codecs
//!   work on.
//!
//! All time quantities are whole milliseconds: delays are spans, instants are
//! readings of a monotone clock. The caller performs the actual I/O and clock
//! reads and hands their results in as plain values.

pub mod backoff;
pub mod bytebuf;
pub mod client;
pub mod connection;
pub mod framing;
pub mod v2;

use vstd::prelude::*;

verus! {

/// Unit of the default backoff strategy, in milliseconds.
pub const DEFAULT_BACKOFF_UNIT_MS: u64 = 100;

/// Cap of the default backoff strategy, in milliseconds.
pub const DEFAULT_BACKOFF_MAX_MS: u64 = 5000;

} // verus!
