//! Probes, probe reports, and the probe-set resolution rule.
//!
//! A probe names a relay node (for STUN) or region (for HTTPS) and a start
//! delay.  A probe set runs homogeneous probes as a race: the first success
//! wins, a recoverable failure lets the siblings continue, and an abort
//! terminates the whole set.

use crate::addr::SockAddr;
use vstd::prelude::*;

verus! {

/// The transport protocol of a probe.
#[derive(Clone, Copy, PartialEq, Eq, Structural, Debug)]
pub enum ProbeProto {
    Ipv4,
    Ipv6,
    Https,
}

/// Mathematical value of a probe.
pub ghost enum ProbeV {
    Ipv4 { node: Seq<char>, delay_ms: u64 },
    Ipv6 { node: Seq<char>, delay_ms: u64 },
    Https { region: u16, delay_ms: u64 },
}

/// The protocol of a probe value.
pub open spec fn proto_of(p: ProbeV) -> ProbeProto {
    match p {
        ProbeV::Ipv4 { .. } => ProbeProto::Ipv4,
        ProbeV::Ipv6 { .. } => ProbeProto::Ipv6,
        ProbeV::Https { .. } => ProbeProto::Https,
    }
}

/// The start delay of a probe value, in milliseconds.
pub open spec fn delay_of(p: ProbeV) -> u64 {
    match p {
        ProbeV::Ipv4 { delay_ms, .. } => delay_ms,
        ProbeV::Ipv6 { delay_ms, .. } => delay_ms,
        ProbeV::Https { delay_ms, .. } => delay_ms,
    }
}

/// A single probe: an IPv4 or IPv6 STUN request to a named node, or an
/// HTTPS measurement against a region.
#[derive(Debug)]
pub enum Probe {
    Ipv4 { node: String, delay_ms: u64 },
    Ipv6 { node: String, delay_ms: u64 },
    Https { region: u16, delay_ms: u64 },
}

impl View for Probe {
    type V = ProbeV;

    open spec fn view(&self) -> ProbeV {
        match self {
            Probe::Ipv4 { node, delay_ms } => ProbeV::Ipv4 { node: node@, delay_ms: *delay_ms },
            Probe::Ipv6 { node, delay_ms } => ProbeV::Ipv6 { node: node@, delay_ms: *delay_ms },
            Probe::Https { region, delay_ms } => ProbeV::Https {
                region: *region,
                delay_ms: *delay_ms,
            },
        }
    }
}

impl Probe {
    /// The transport protocol of this probe.
    pub fn proto(&self) -> (r: ProbeProto)
        ensures
            r == proto_of(self@),
    {
        match self {
            Probe::Ipv4 { .. } => ProbeProto::Ipv4,
            Probe::Ipv6 { .. } => ProbeProto::Ipv6,
            Probe::Https { .. } => ProbeProto::Https,
        }
    }

    /// The start delay of this probe, in milliseconds.
    pub fn delay_ms(&self) -> (r: u64)
        ensures
            r == delay_of(self@),
    {
        match self {
            Probe::Ipv4 { delay_ms, .. } => *delay_ms,
            Probe::Ipv6 { delay_ms, .. } => *delay_ms,
            Probe::Https { delay_ms, .. } => *delay_ms,
        }
    }

    /// A copy of this probe.
    pub fn duplicate(&self) -> (r: Probe)
        ensures
            r@ == self@,
    {
        match self {
            Probe::Ipv4 { node, delay_ms } => Probe::Ipv4 {
                node: node.clone(),
                delay_ms: *delay_ms,
            },
            Probe::Ipv6 { node, delay_ms } => Probe::Ipv6 {
                node: node.clone(),
                delay_ms: *delay_ms,
            },
            Probe::Https { region, delay_ms } => Probe::Https {
                region: *region,
                delay_ms: *delay_ms,
            },
        }
    }
}

/// Mathematical value of a probe report.
pub ghost struct ProbeReportV {
    pub ipv4_can_send: bool,
    pub ipv6_can_send: bool,
    pub icmpv4: bool,
    pub delay: Option<u64>,
    pub probe: ProbeV,
    pub addr: Option<SockAddr>,
}

/// The successful outcome of running one probe.
#[derive(Debug)]
pub struct ProbeReport {
    /// Whether an IPv4 UDP packet could be sent.
    pub ipv4_can_send: bool,
    /// Whether an IPv6 UDP packet could be sent.
    pub ipv6_can_send: bool,
    /// Whether an ICMPv4 echo came back.
    pub icmpv4: bool,
    /// The measured latency, in milliseconds.
    pub delay: Option<u64>,
    /// The probe that produced this report.
    pub probe: Probe,
    /// The public address observed by the remote end.
    pub addr: Option<SockAddr>,
}

impl View for ProbeReport {
    type V = ProbeReportV;

    open spec fn view(&self) -> ProbeReportV {
        ProbeReportV {
            ipv4_can_send: self.ipv4_can_send,
            ipv6_can_send: self.ipv6_can_send,
            icmpv4: self.icmpv4,
            delay: self.delay,
            probe: self.probe@,
            addr: self.addr,
        }
    }
}

/// The report of a probe that observed nothing.
pub open spec fn empty_report_of(p: ProbeV) -> ProbeReportV {
    ProbeReportV {
        ipv4_can_send: false,
        ipv6_can_send: false,
        icmpv4: false,
        delay: None,
        probe: p,
        addr: None,
    }
}

impl ProbeReport {
    /// A fresh report for a probe, with nothing observed yet.
    pub fn new(probe: Probe) -> (r: ProbeReport)
        ensures
            r@ == empty_report_of(probe@),
    {
        ProbeReport {
            probe,
            ipv4_can_send: false,
            ipv6_can_send: false,
            icmpv4: false,
            delay: None,
            addr: None,
        }
    }
}

/// An unsuccessful probe outcome: whether the rest of the probe set should
/// still run.
#[derive(Debug)]
pub enum ProbeError {
    /// Terminate the whole probe set.
    AbortSet(Probe),
    /// Let the sibling probes of the set continue.
    Error(Probe),
}

/// Why a probe set resolved without a report.
#[derive(Clone, Copy, PartialEq, Eq, Structural, Debug)]
pub enum SetError {
    /// A probe asked for the whole set to stop.
    Aborted,
    /// Every probe of the set failed recoverably.
    AllFailed,
}

/// How a probe set resolves, given its probes' outcomes in completion
/// order: the first report wins, the first abort terminates the set, and a
/// set of recoverable failures fails as a whole.
pub open spec fn resolve_set_spec(outcomes: Seq<Result<ProbeReport, ProbeError>>) -> Result<
    ProbeReport,
    SetError,
>
    decreases outcomes.len(),
{
    if outcomes.len() == 0 {
        Err(SetError::AllFailed)
    } else {
        match outcomes[0] {
            Ok(report) => Ok(report),
            Err(ProbeError::AbortSet(_)) => Err(SetError::Aborted),
            Err(ProbeError::Error(_)) => resolve_set_spec(outcomes.skip(1)),
        }
    }
}

/// Resolves a probe set from its probes' outcomes, in completion order.
pub fn resolve_probe_set(outcomes: Vec<Result<ProbeReport, ProbeError>>) -> (r: Result<
    ProbeReport,
    SetError,
>)
    ensures
        r == resolve_set_spec(outcomes@),
{
    let mut rest = outcomes;
    while rest.len() > 0
        invariant
            resolve_set_spec(outcomes@) == resolve_set_spec(rest@),
        decreases rest@.len(),
    {
        let ghost before = rest@;
        let first = rest.remove(0);
        proof {
            assert(rest@ =~= before.skip(1));
        }
        match first {
            Ok(report) => {
                return Ok(report);
            },
            Err(ProbeError::AbortSet(_)) => {
                return Err(SetError::Aborted);
            },
            Err(ProbeError::Error(_)) => {},
        }
    }
    Err(SetError::AllFailed)
}

} // verus!
// Decision logic of the probe executor: what a probe's report holds, given
// what the transport attempts observed.

verus! {

/// What happened when a STUN request was sent over a family's socket.
#[derive(Clone, Copy, PartialEq, Eq, Structural, Debug)]
pub enum StunAttempt {
    /// No socket for the probe's family: nothing was observed.
    NoSocket,
    /// The send failed or wrote a partial payload: nothing was observed.
    SendFailed,
    /// The request went out but the reply channel broke.
    ReplyLost,
    /// A reply came back with the measured latency and the address the
    /// relay observed.
    Replied { latency_ms: u64, addr: SockAddr },
}

/// The report of a STUN probe: a lost reply after a successful send fails
/// the probe recoverably; everything else yields a report, with the
/// family's send flag, the latency and the observed address filled in only
/// after a reply.
pub fn stun_probe_result(probe: Probe, attempt: StunAttempt) -> (r: Result<
    ProbeReport,
    ProbeError,
>)
    requires
        (probe@ matches ProbeV::Ipv4 { .. }) || (probe@ matches ProbeV::Ipv6 { .. }),
    ensures
        match attempt {
            StunAttempt::NoSocket => r matches Ok(rep) && rep@ == empty_report_of(probe@),
            StunAttempt::SendFailed => r matches Ok(rep) && rep@ == empty_report_of(probe@),
            StunAttempt::ReplyLost => r matches Err(ProbeError::Error(p)) && p@ == probe@,
            StunAttempt::Replied { latency_ms, addr } => r matches Ok(rep) && rep@
                == (ProbeReportV {
                ipv4_can_send: probe@ is Ipv4,
                ipv6_can_send: probe@ is Ipv6,
                icmpv4: false,
                delay: Some(latency_ms),
                probe: probe@,
                addr: Some(addr),
            }),
        },
{
    let is_v4 = match &probe {
        Probe::Ipv4 { .. } => true,
        _ => false,
    };
    match attempt {
        StunAttempt::NoSocket => Ok(ProbeReport::new(probe)),
        StunAttempt::SendFailed => Ok(ProbeReport::new(probe)),
        StunAttempt::ReplyLost => Err(ProbeError::Error(probe)),
        StunAttempt::Replied { latency_ms, addr } => {
            let mut result = ProbeReport::new(probe);
            result.ipv4_can_send = is_v4;
            result.ipv6_can_send = !is_v4;
            result.delay = Some(latency_ms);
            result.addr = Some(addr);
            Ok(result)
        },
    }
}

/// What the embedded ICMP measurement of an HTTPS probe observed.
#[derive(Clone, Copy, PartialEq, Eq, Structural, Debug)]
pub enum IcmpAttempt {
    /// No pinger was available.
    NoPinger,
    /// The measurement missed its deadline.
    TimedOut,
    /// The ping failed.
    Failed,
    /// The echo came back after this many milliseconds.
    Latency(u64),
}

/// The report of an HTTPS probe, given its ICMP and HTTPS measurements.
pub open spec fn https_report_spec(
    p: ProbeV,
    icmp: IcmpAttempt,
    https: Option<(u64, SockAddr)>,
) -> ProbeReportV {
    let base = empty_report_of(p);
    let after_icmp = match icmp {
        IcmpAttempt::Latency(d) => ProbeReportV {
            delay: Some(d),
            ipv4_can_send: true,
            icmpv4: true,
            ..base
        },
        _ => base,
    };
    match https {
        Some((d, ip)) => ProbeReportV {
            delay: Some(d),
            ipv4_can_send: if ip is V4 {
                true
            } else {
                after_icmp.ipv4_can_send
            },
            ipv6_can_send: if ip is V6 {
                true
            } else {
                after_icmp.ipv6_can_send
            },
            ..after_icmp
        },
        None => after_icmp,
    }
}

/// Builds an HTTPS probe's report: an ICMP echo sets the latency and the
/// ICMPv4 flag; an HTTPS measurement overrides the latency and marks the
/// observed address family as able to send.  Failed measurements leave the
/// report's fields unset.
pub fn https_probe_result(probe: Probe, icmp: IcmpAttempt, https: Option<(u64, SockAddr)>) -> (r:
    ProbeReport)
    ensures
        r@ == https_report_spec(probe@, icmp, https),
{
    let mut result = ProbeReport::new(probe);
    match icmp {
        IcmpAttempt::Latency(d) => {
            result.delay = Some(d);
            result.ipv4_can_send = true;
            result.icmpv4 = true;
        },
        _ => {},
    }
    match https {
        Some((d, ip)) => {
            result.delay = Some(d);
            match ip {
                SockAddr::V4 { .. } => {
                    result.ipv4_can_send = true;
                },
                SockAddr::V6 { .. } => {
                    result.ipv6_can_send = true;
                },
            }
        },
        None => {},
    }
    result
}

/// The HTTPS latency measurement is not implemented yet: it never
/// contributes a latency.
pub fn measure_https_latency(region: &crate::relay::RelayRegion) -> (r: Option<(u64, SockAddr)>)
    ensures
        r is None,
{
    None
}

} // verus!
