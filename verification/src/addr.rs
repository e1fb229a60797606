//! Plain models of transport addresses.
//!
//! The report records the public addresses observed by STUN replies.  An
//! address is held as plain integers so that contracts can compare addresses
//! directly.

use vstd::prelude::*;

verus! {

/// A socket address: an IPv4 or IPv6 address together with a port.
///
/// An IPv4 address is its four octets read as a big-endian `u32`; an IPv6
/// address is its sixteen octets read as two big-endian `u64`s.
#[derive(Clone, Copy, PartialEq, Eq, Structural, Debug)]
pub enum SockAddr {
    V4 { ip: u32, port: u16 },
    V6 { ip_hi: u64, ip_lo: u64, port: u16 },
}

impl SockAddr {
    /// Whether this is an IPv4 address.
    pub fn is_v4(&self) -> (r: bool)
        ensures
            r == (self is V4),
    {
        match self {
            SockAddr::V4 { .. } => true,
            SockAddr::V6 { .. } => false,
        }
    }
}

} // verus!
