//! A network-condition report generator.
//!
//! The core of the crate is a one-shot report-generator actor: it probes a
//! known set of relay regions over several transports (IPv4/IPv6 UDP STUN,
//! ICMP within HTTPS probes, HTTPS) and folds the probe results into a single
//! [`report::Report`] describing the local host's connectivity.  The actor's
//! decision logic — aggregation, probe suppression, timer arming, task
//! bookkeeping — lives here as verified functions; the surrounding runtime
//! (sockets, timers, channels) drives it from outside through
//! [`actor::Actor::step`].
//!
//! The crate also carries the pure request/response logic of a small HTTP
//! gateway example: response formats, header table manipulation and content
//! disposition rules.

use vstd::prelude::*;

pub mod actor;
pub mod captive;
pub mod client;
pub mod config;
pub mod error;
pub mod gateway;
pub mod headers;
pub mod addr;
pub mod kvseq;
pub mod latency;
pub mod laws;
pub mod probe;
pub mod relay;
pub mod report;
pub mod response;
pub mod strutil;

verus! {

/// The maximum time spent gathering a single report, in milliseconds.
pub const OVERALL_PROBE_TIMEOUT_MS: u64 = 5000;

/// The maximum time spent probing with STUN packets without a reply, in
/// milliseconds, before assuming outbound UDP is blocked.
pub const STUN_PROBE_TIMEOUT_MS: u64 = 3000;

/// The maximum time spent probing with ICMP packets, in milliseconds.
pub const ICMP_PROBE_TIMEOUT_MS: u64 = 1000;

/// How long the captive-portal check waits before starting, in milliseconds,
/// to give UDP STUN a head start.
pub const CAPTIVE_PORTAL_DELAY_MS: u64 = 200;

/// Deadline for the captive-portal check, in milliseconds; lower than
/// [`OVERALL_PROBE_TIMEOUT_MS`].
pub const CAPTIVE_PORTAL_TIMEOUT_MS: u64 = 2000;

/// Once this many regions have reported a latency, a timer is armed that
/// gives up on the remaining probes.
pub const ENOUGH_REGIONS: usize = 3;

/// Capacity of the actor's message channel.
pub const MSG_CHANNEL_CAPACITY: usize = 32;

/// Upper bound on a latency value stored in a report, in milliseconds.
/// Doubling a latency below this bound cannot overflow a `u64`.
pub const MAX_LATENCY_MS: u64 = 0x3fff_ffff_ffff_ffff;

} // verus!
