//! The connectivity report under construction.
//!
//! A single report value grows as probe results arrive; only the actor
//! mutates it.  The monotonicity rules — booleans only rise, the first
//! global IPv4 address wins, a detected varying NAT mapping is sticky — are
//! stated over the report's mathematical view.

use crate::addr::SockAddr;
use crate::latency::{latencies_bounded, RegionLatencies};
use vstd::prelude::*;

verus! {

/// Outcome of the port-mapper probe: which port-mapping protocols the
/// gateway answered.
#[derive(Clone, Copy, PartialEq, Eq, Structural, Debug)]
pub struct PortmapOutcome {
    pub upnp: bool,
    pub pmp: bool,
    pub pcp: bool,
}

/// Mathematical value of a report.
#[verifier::ext_equal]
pub ghost struct ReportV {
    pub udp: bool,
    pub ipv6: bool,
    pub ipv4: bool,
    pub ipv6_can_send: bool,
    pub ipv4_can_send: bool,
    pub icmpv4: bool,
    pub os_has_ipv6: bool,
    pub mapping_varies_by_dest_ip: Option<bool>,
    pub hair_pinning: Option<bool>,
    pub portmap_probe: Option<PortmapOutcome>,
    pub region_latency: Map<u16, u64>,
    pub region_v4_latency: Map<u16, u64>,
    pub region_v6_latency: Map<u16, u64>,
    pub global_v4: Option<SockAddr>,
    pub global_v6: Option<SockAddr>,
    pub captive_portal: Option<bool>,
    pub preferred_derp: u16,
}

/// The report all generation starts from: nothing observed.
pub open spec fn report_default() -> ReportV {
    ReportV {
        udp: false,
        ipv6: false,
        ipv4: false,
        ipv6_can_send: false,
        ipv4_can_send: false,
        icmpv4: false,
        os_has_ipv6: false,
        mapping_varies_by_dest_ip: None,
        hair_pinning: None,
        portmap_probe: None,
        region_latency: Map::empty(),
        region_v4_latency: Map::empty(),
        region_v6_latency: Map::empty(),
        global_v4: None,
        global_v6: None,
        captive_portal: None,
        preferred_derp: 0,
    }
}

/// A network-condition report.
#[derive(Debug)]
pub struct Report {
    /// Whether any STUN probe succeeded over UDP.
    pub udp: bool,
    /// Whether UDP succeeded over IPv6.
    pub ipv6: bool,
    /// Whether UDP succeeded over IPv4.
    pub ipv4: bool,
    /// Whether an IPv6 UDP packet could be sent.
    pub ipv6_can_send: bool,
    /// Whether an IPv4 UDP packet could be sent.
    pub ipv4_can_send: bool,
    /// Whether an ICMPv4 echo came back.
    pub icmpv4: bool,
    /// Whether the host reports an IPv6 interface; sampled once at start.
    pub os_has_ipv6: bool,
    /// Whether the NAT mapping varies by destination: unknown, no, or yes
    /// (sticky once yes).
    pub mapping_varies_by_dest_ip: Option<bool>,
    /// Whether hairpin traversal works: unknown, no, or yes.
    pub hair_pinning: Option<bool>,
    /// Port-mapper outcome; `None` while unknown or failed.
    pub portmap_probe: Option<PortmapOutcome>,
    /// Shortest observed latency per region, any transport.
    pub region_latency: RegionLatencies,
    /// Shortest observed latency per region over IPv4.
    pub region_v4_latency: RegionLatencies,
    /// Shortest observed latency per region over IPv6.
    pub region_v6_latency: RegionLatencies,
    /// The first public IPv4 address observed.
    pub global_v4: Option<SockAddr>,
    /// The latest public IPv6 address observed.
    pub global_v6: Option<SockAddr>,
    /// Whether a captive portal intercepts HTTP: unknown, no, or yes.
    pub captive_portal: Option<bool>,
    /// The relay region chosen for future use.
    pub preferred_derp: u16,
}

impl View for Report {
    type V = ReportV;

    open spec fn view(&self) -> ReportV {
        ReportV {
            udp: self.udp,
            ipv6: self.ipv6,
            ipv4: self.ipv4,
            ipv6_can_send: self.ipv6_can_send,
            ipv4_can_send: self.ipv4_can_send,
            icmpv4: self.icmpv4,
            os_has_ipv6: self.os_has_ipv6,
            mapping_varies_by_dest_ip: self.mapping_varies_by_dest_ip,
            hair_pinning: self.hair_pinning,
            portmap_probe: self.portmap_probe,
            region_latency: self.region_latency@,
            region_v4_latency: self.region_v4_latency@,
            region_v6_latency: self.region_v6_latency@,
            global_v4: self.global_v4,
            global_v6: self.global_v6,
            captive_portal: self.captive_portal,
            preferred_derp: self.preferred_derp,
        }
    }
}

/// Every latency stored in a report view is bounded.
pub open spec fn report_bounded(r: ReportV) -> bool {
    latencies_bounded(r.region_latency) && latencies_bounded(r.region_v4_latency)
        && latencies_bounded(r.region_v6_latency)
}

impl Report {
    /// The latency tables are well-formed.
    pub open spec fn wf(&self) -> bool {
        self.region_latency.wf() && self.region_v4_latency.wf() && self.region_v6_latency.wf()
    }

    /// The latency tables of a well-formed report have finite domains.
    pub proof fn lemma_wf_props(&self)
        requires
            self.wf(),
        ensures
            self@.region_latency.dom().finite(),
            self@.region_v4_latency.dom().finite(),
            self@.region_v6_latency.dom().finite(),
            report_bounded(self@),
    {
        self.region_latency.lemma_wf_props();
        self.region_v4_latency.lemma_wf_props();
        self.region_v6_latency.lemma_wf_props();
    }

    /// A copy of this report.
    pub fn duplicate(&self) -> (r: Report)
        requires
            self.wf(),
        ensures
            r.wf(),
            r@ =~= self@,
    {
        Report {
            udp: self.udp,
            ipv6: self.ipv6,
            ipv4: self.ipv4,
            ipv6_can_send: self.ipv6_can_send,
            ipv4_can_send: self.ipv4_can_send,
            icmpv4: self.icmpv4,
            os_has_ipv6: self.os_has_ipv6,
            mapping_varies_by_dest_ip: self.mapping_varies_by_dest_ip,
            hair_pinning: self.hair_pinning,
            portmap_probe: self.portmap_probe,
            region_latency: self.region_latency.duplicate(),
            region_v4_latency: self.region_v4_latency.duplicate(),
            region_v6_latency: self.region_v6_latency.duplicate(),
            global_v4: self.global_v4,
            global_v6: self.global_v6,
            captive_portal: self.captive_portal,
            preferred_derp: self.preferred_derp,
        }
    }
}

impl Default for Report {
    /// The report all generation starts from.
    fn default() -> (r: Report)
        ensures
            r.wf(),
            r@ =~= report_default(),
    {
        Report {
            udp: false,
            ipv6: false,
            ipv4: false,
            ipv6_can_send: false,
            ipv4_can_send: false,
            icmpv4: false,
            os_has_ipv6: false,
            mapping_varies_by_dest_ip: None,
            hair_pinning: None,
            portmap_probe: None,
            region_latency: RegionLatencies::new(),
            region_v4_latency: RegionLatencies::new(),
            region_v6_latency: RegionLatencies::new(),
            global_v4: None,
            global_v6: None,
            captive_portal: None,
            preferred_derp: 0,
        }
    }
}

} // verus!
