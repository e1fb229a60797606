//! The report-generator actor's decision logic.
//!
//! The actor folds probe outcomes into the growing report and decides when
//! to stop.  Everything that needs a runtime — timers, sockets, channels,
//! the select loop — stays outside; the outside driver turns each loop event
//! into an [`Event`], calls [`Actor::step`], and performs the actions named
//! by the returned [`StepOutcome`].

use crate::addr::SockAddr;
use crate::latency::upd_min;
use crate::probe::{proto_of, Probe, ProbeProto, ProbeReport, ProbeReportV, ProbeV};
use crate::relay::{find_node_region, RelayMap, RelayNode, RelayNodeV, RelayRegionV};
use crate::report::{report_default, PortmapOutcome, Report, ReportV};
use crate::ENOUGH_REGIONS;
use crate::MAX_LATENCY_MS;
use vstd::prelude::*;

verus! {

/// The subordinate tasks the actor is still waiting on.  The actor's work
/// is done when all four flags are clear.
#[derive(Clone, Copy, PartialEq, Eq, Structural, Debug)]
pub struct OutstandingTasks {
    pub probes: bool,
    pub port_mapper: bool,
    pub captive_task: bool,
    pub hairpin: bool,
}

impl OutstandingTasks {
    /// Whether no task is outstanding, so the actor can deliver its report.
    pub fn all_done(&self) -> (r: bool)
        ensures
            r == !(self.probes || self.port_mapper || self.captive_task || self.hairpin),
    {
        !(self.probes || self.port_mapper || self.captive_task || self.hairpin)
    }
}

impl Default for OutstandingTasks {
    /// No task outstanding.
    fn default() -> (r: OutstandingTasks)
        ensures
            r == (OutstandingTasks { probes: false, port_mapper: false, captive_task: false, hairpin: false }),
    {
        OutstandingTasks { probes: false, port_mapper: false, captive_task: false, hairpin: false }
    }
}

/// Mathematical value of a message.
pub ghost enum MessageV {
    HairpinResult(bool),
    ProbeWouldHelp(ProbeV, RelayNodeV),
    AbortProbes,
}

/// A message sent to the actor by one of its subordinate tasks.
#[derive(Debug)]
pub enum Message {
    /// The hairpin sub-actor's verdict.
    HairpinResult(bool),
    /// A probe asking whether running it would still improve the report;
    /// the driver returns the answer from [`StepOutcome::reply_would_help`].
    ProbeWouldHelp(Probe, RelayNode),
    /// Give up on the remaining probes.
    AbortProbes,
}

impl View for Message {
    type V = MessageV;

    open spec fn view(&self) -> MessageV {
        match self {
            Message::HairpinResult(works) => MessageV::HairpinResult(*works),
            Message::ProbeWouldHelp(probe, node) => MessageV::ProbeWouldHelp(probe@, node@),
            Message::AbortProbes => MessageV::AbortProbes,
        }
    }
}

/// Mathematical value of an event.
pub ghost enum EventV {
    OverallTimeout,
    StunTimeout,
    PortMapper(Option<PortmapOutcome>),
    Captive(Option<bool>),
    ProbeReport(ProbeReportV),
    ProbeSetFailed,
    ProbesExhausted,
    Msg(MessageV),
    ChannelClosed,
}

/// One iteration of the actor's select loop: whatever woke the actor up.
#[derive(Debug)]
pub enum Event {
    /// The overall report timer fired.
    OverallTimeout,
    /// The STUN probe timer fired.
    StunTimeout,
    /// The port-mapper future resolved.
    PortMapper(Option<PortmapOutcome>),
    /// The captive-portal future resolved with its verdict.
    Captive(Option<bool>),
    /// A probe set yielded a successful report.
    ProbeReport(ProbeReport),
    /// A probe set resolved with an error.
    ProbeSetFailed,
    /// The probe-set stream is exhausted.
    ProbesExhausted,
    /// A message arrived on the actor's channel.
    Msg(Message),
    /// The actor's message channel closed.
    ChannelClosed,
}

impl View for Event {
    type V = EventV;

    open spec fn view(&self) -> EventV {
        match self {
            Event::OverallTimeout => EventV::OverallTimeout,
            Event::StunTimeout => EventV::StunTimeout,
            Event::PortMapper(pm) => EventV::PortMapper(*pm),
            Event::Captive(found) => EventV::Captive(*found),
            Event::ProbeReport(pr) => EventV::ProbeReport(pr@),
            Event::ProbeSetFailed => EventV::ProbeSetFailed,
            Event::ProbesExhausted => EventV::ProbesExhausted,
            Event::Msg(msg) => EventV::Msg(msg@),
            Event::ChannelClosed => EventV::ChannelClosed,
        }
    }
}

/// An event's latencies fit the report's latency bound.
pub open spec fn event_bounded(e: EventV) -> bool {
    match e {
        EventV::ProbeReport(pr) => match pr.delay {
            Some(d) => d <= MAX_LATENCY_MS,
            None => true,
        },
        _ => true,
    }
}

/// Why the actor failed without delivering a report.
#[derive(Clone, Copy, PartialEq, Eq, Structural, Debug)]
pub enum Fatal {
    /// The overall probe timeout elapsed.
    Timeout,
    /// The message channel closed: the actor's client was dropped.
    ChannelClosed,
}

/// The actions a [`Actor::step`] call asks the driver to perform.
#[derive(Clone, Copy, PartialEq, Eq, Structural, Debug)]
pub struct StepOutcome {
    /// Abort report generation with this failure.
    pub fatal: Option<Fatal>,
    /// Answer to a [`Message::ProbeWouldHelp`] question.
    pub reply_would_help: Option<bool>,
    /// Start the hairpin check against this address.
    pub start_hairpin: Option<SockAddr>,
    /// Arm a one-shot timer that sends [`Message::AbortProbes`] after this
    /// many milliseconds.
    pub arm_abort_timer_ms: Option<u64>,
}

/// Mathematical value of the actor.
#[verifier::ext_equal]
pub ghost struct ActorV {
    pub report: ReportV,
    pub tasks: OutstandingTasks,
    pub incremental: bool,
    pub relay: Seq<RelayRegionV>,
}

/// The report after folding in a STUN observation for a region: UDP works,
/// the region's latency shrinks, and the observed address updates the
/// family-specific state.  The first global IPv4 address wins; a second,
/// different one marks the NAT mapping as varying by destination.
#[verifier::opaque]
pub open spec fn add_stun_report_spec(
    r: ReportV,
    region: u16,
    addr: Option<SockAddr>,
    lat: u64,
) -> ReportV {
    let r1 = ReportV { udp: true, region_latency: upd_min(r.region_latency, region, lat), ..r };
    match addr {
        None => r1,
        Some(a) => match a {
            SockAddr::V4 { .. } => {
                let r2 = ReportV {
                    ipv4: true,
                    region_v4_latency: upd_min(r1.region_v4_latency, region, lat),
                    ..r1
                };
                if r2.global_v4 is None {
                    ReportV { global_v4: Some(a), ..r2 }
                } else if r2.global_v4 != Some(a) {
                    ReportV { mapping_varies_by_dest_ip: Some(true), ..r2 }
                } else if r2.mapping_varies_by_dest_ip is None {
                    ReportV { mapping_varies_by_dest_ip: Some(false), ..r2 }
                } else {
                    r2
                }
            },
            SockAddr::V6 { .. } => ReportV {
                ipv6: true,
                region_v6_latency: upd_min(r1.region_v6_latency, region, lat),
                global_v6: Some(a),
                ..r1
            },
        },
    }
}

/// Folding a STUN observation at the actor level: the node name resolves
/// through the relay map; an unknown node leaves the actor unchanged.
#[verifier::opaque]
pub open spec fn actor_add_stun_spec(
    s: ActorV,
    name: Seq<char>,
    addr: Option<SockAddr>,
    lat: u64,
) -> ActorV {
    match find_node_region(s.relay, name) {
        Some(region) => ActorV { report: add_stun_report_spec(s.report, region, addr, lat), ..s },
        None => s,
    }
}

/// Whether folding this STUN observation arms the abort timer: the node
/// resolves and the updated latency table covers exactly
/// [`ENOUGH_REGIONS`] regions.
pub open spec fn stun_arms_timer(s: ActorV, name: Seq<char>, lat: u64) -> bool {
    match find_node_region(s.relay, name) {
        Some(region) => upd_min(s.report.region_latency, region, lat).dom().len()
            == ENOUGH_REGIONS,
        None => false,
    }
}

/// The factor applied to the slowest region's latency when arming the
/// abort timer: a full report waits twice as long as an incremental one.
pub open spec fn timer_factor(incremental: bool) -> int {
    if incremental {
        1
    } else {
        2
    }
}

/// `v` is the largest latency the table holds.
pub open spec fn is_max_of(m: Map<u16, u64>, v: u64) -> bool {
    &&& forall|k: u16| m.contains_key(k) ==> m[k] <= v
    &&& exists|k: u16| m.contains_key(k) && m[k] == v
}

/// The armed timer equals the slowest known region latency times the
/// report-kind factor.
pub open spec fn timer_value_ok(m: Map<u16, u64>, incremental: bool, t: u64) -> bool {
    exists|v: u64| #[trigger] is_max_of(m, v) && t == v * timer_factor(incremental)
}

/// Giving up on probes: the probe stream is no longer awaited, and if UDP
/// already succeeded the captive-portal check is cancelled as well.
pub open spec fn abort_probes_spec(s: ActorV) -> ActorV {
    ActorV {
        tasks: OutstandingTasks {
            probes: false,
            captive_task: if s.report.udp {
                false
            } else {
                s.tasks.captive_task
            },
            ..s.tasks
        },
        ..s
    }
}

/// Whether running a probe against this region would still improve the
/// report: the region has no latency yet, or the probe is IPv6 and no IPv6
/// latency exists, or the probe is IPv4 and the NAT-variance question is
/// still open.
pub open spec fn would_help_spec(r: ReportV, proto: ProbeProto, region: u16) -> bool {
    ||| !r.region_latency.contains_key(region)
    ||| proto == ProbeProto::Ipv6 && r.region_v6_latency.dom().len() == 0
    ||| proto == ProbeProto::Ipv4 && r.mapping_varies_by_dest_ip is None
}

/// The report with another probe report's reachability flags folded in.
pub open spec fn or_flags(r: ReportV, pr: ProbeReportV) -> ReportV {
    ReportV {
        ipv4_can_send: r.ipv4_can_send || pr.ipv4_can_send,
        ipv6_can_send: r.ipv6_can_send || pr.ipv6_can_send,
        icmpv4: r.icmpv4 || pr.icmpv4,
        ..r
    }
}

/// Folding one STUN observation with a measured latency: the observation
/// is added, and whenever a global IPv4 address is known afterwards the
/// hairpin check is (re)started.
#[verifier::opaque]
pub open spec fn fold_stun_spec(s: ActorV, node: Seq<char>, addr: Option<SockAddr>, lat: u64) -> ActorV {
    let s2 = actor_add_stun_spec(s, node, addr, lat);
    if s2.report.global_v4 is Some {
        ActorV { tasks: OutstandingTasks { hairpin: true, ..s2.tasks }, ..s2 }
    } else {
        s2
    }
}

/// Folding a STUN probe report: only a report with a measured latency
/// changes the actor.
#[verifier::opaque]
pub open spec fn stun_report_step(
    s: ActorV,
    node: Seq<char>,
    addr: Option<SockAddr>,
    delay: Option<u64>,
) -> ActorV {
    match delay {
        Some(d) => fold_stun_spec(s, node, addr, d),
        None => s,
    }
}

/// The global IPv4 address known after folding a STUN probe report, if a
/// latency was measured: the address the hairpin check is started against.
#[verifier::opaque]
pub open spec fn stun_hairpin(
    s: ActorV,
    node: Seq<char>,
    addr: Option<SockAddr>,
    delay: Option<u64>,
) -> Option<SockAddr> {
    match delay {
        Some(d) => fold_stun_spec(s, node, addr, d).report.global_v4,
        None => None,
    }
}

/// Whether folding a STUN probe report arms the abort timer.
#[verifier::opaque]
pub open spec fn stun_timer_armed(
    s: ActorV,
    node: Seq<char>,
    delay: Option<u64>,
) -> bool {
    match delay {
        Some(d) => stun_arms_timer(s, node, d),
        None => false,
    }
}

/// Folding one probe report's measurement into the actor, before the
/// reachability flags are folded in.
#[verifier::opaque]
pub open spec fn probe_report_core_spec(s: ActorV, pr: ProbeReportV) -> ActorV {
    match pr.probe {
        ProbeV::Https { region, .. } => match pr.delay {
            Some(d) => ActorV {
                report: ReportV {
                    region_latency: upd_min(s.report.region_latency, region, d),
                    ..s.report
                },
                ..s
            },
            None => s,
        },
        ProbeV::Ipv4 { node, .. } => stun_report_step(s, node, pr.addr, pr.delay),
        ProbeV::Ipv6 { node, .. } => stun_report_step(s, node, pr.addr, pr.delay),
    }
}

/// Folding one probe report into the actor.
#[verifier::opaque]
pub open spec fn handle_probe_report_spec(s: ActorV, pr: ProbeReportV) -> ActorV {
    let s1 = probe_report_core_spec(s, pr);
    ActorV { report: or_flags(s1.report, pr), ..s1 }
}

/// The address the hairpin check is started against after folding a probe
/// report, if any.
#[verifier::opaque]
pub open spec fn probe_report_hairpin_spec(s: ActorV, pr: ProbeReportV) -> Option<SockAddr> {
    match pr.probe {
        ProbeV::Https { .. } => None,
        ProbeV::Ipv4 { node, .. } => stun_hairpin(s, node, pr.addr, pr.delay),
        ProbeV::Ipv6 { node, .. } => stun_hairpin(s, node, pr.addr, pr.delay),
    }
}

/// Whether folding a probe report arms the abort timer.
#[verifier::opaque]
pub open spec fn probe_report_arms_timer(s: ActorV, pr: ProbeReportV) -> bool {
    match pr.probe {
        ProbeV::Https { .. } => false,
        ProbeV::Ipv4 { node, .. } => stun_timer_armed(s, node, pr.delay),
        ProbeV::Ipv6 { node, .. } => stun_timer_armed(s, node, pr.delay),
    }
}

/// Handling one actor message.
pub open spec fn handle_message_spec(s: ActorV, m: MessageV) -> ActorV {
    match m {
        MessageV::HairpinResult(works) => ActorV {
            report: ReportV { hair_pinning: Some(works), ..s.report },
            tasks: OutstandingTasks { hairpin: false, ..s.tasks },
            ..s
        },
        MessageV::ProbeWouldHelp(..) => s,
        MessageV::AbortProbes => abort_probes_spec(s),
    }
}

/// The answer a message asks for, if any.
pub open spec fn msg_reply_spec(s: ActorV, m: MessageV) -> Option<bool> {
    match m {
        MessageV::ProbeWouldHelp(probe, node) => Some(
            would_help_spec(s.report, proto_of(probe), node.region_id),
        ),
        _ => None,
    }
}

/// One iteration of the actor's select loop.
pub open spec fn step_spec(s: ActorV, e: EventV) -> ActorV {
    match e {
        EventV::OverallTimeout => s,
        EventV::StunTimeout => abort_probes_spec(s),
        EventV::PortMapper(pm) => ActorV {
            report: ReportV { portmap_probe: pm, ..s.report },
            tasks: OutstandingTasks { port_mapper: false, ..s.tasks },
            ..s
        },
        EventV::Captive(found) => ActorV {
            report: ReportV { captive_portal: found, ..s.report },
            tasks: OutstandingTasks { captive_task: false, ..s.tasks },
            ..s
        },
        EventV::ProbeReport(pr) => handle_probe_report_spec(s, pr),
        EventV::ProbeSetFailed => s,
        EventV::ProbesExhausted => abort_probes_spec(s),
        EventV::Msg(m) => handle_message_spec(s, m),
        EventV::ChannelClosed => s,
    }
}

/// The failure a step reports, if any.
pub open spec fn step_fatal_spec(e: EventV) -> Option<Fatal> {
    match e {
        EventV::OverallTimeout => Some(Fatal::Timeout),
        EventV::ChannelClosed => Some(Fatal::ChannelClosed),
        _ => None,
    }
}

/// The reply a step asks the driver to send, if any.
pub open spec fn step_reply_spec(s: ActorV, e: EventV) -> Option<bool> {
    match e {
        EventV::Msg(m) => msg_reply_spec(s, m),
        _ => None,
    }
}

/// The hairpin check a step asks the driver to start, if any.
pub open spec fn step_hairpin_spec(s: ActorV, e: EventV) -> Option<SockAddr> {
    match e {
        EventV::ProbeReport(pr) => probe_report_hairpin_spec(s, pr),
        _ => None,
    }
}

/// Whether a step arms the abort timer.
pub open spec fn step_arms_timer(s: ActorV, e: EventV) -> bool {
    match e {
        EventV::ProbeReport(pr) => probe_report_arms_timer(s, pr),
        _ => false,
    }
}

/// The report-generator actor's state: the relay map and report kind it
/// was constructed with, the report being built, and the outstanding-task
/// flags.
#[derive(Debug)]
pub struct Actor {
    /// The relay map, read-only after construction.
    pub relay_map: RelayMap,
    /// Whether this refines a previous report.
    pub incremental: bool,
    /// The previous report's preferred region, a hint for the
    /// captive-portal check.
    pub preferred_derp_hint: Option<u16>,
    /// The report being built.
    pub report: Report,
    /// The tasks the actor still waits on.
    pub outstanding_tasks: OutstandingTasks,
}

impl View for Actor {
    type V = ActorV;

    open spec fn view(&self) -> ActorV {
        ActorV {
            report: self.report@,
            tasks: self.outstanding_tasks,
            incremental: self.incremental,
            relay: self.relay_map@,
        }
    }
}

impl Actor {
    /// The actor's latency tables are well-formed.
    pub open spec fn wf(&self) -> bool {
        self.report.wf()
    }

    /// A new actor, about to generate one report.
    ///
    /// The startup sequence samples the host's IPv6 support, schedules the
    /// port mapper unless external work is skipped or no mapper exists,
    /// schedules the captive-portal check only for a full report, and
    /// starts awaiting the probe sets.
    pub fn new(
        relay_map: RelayMap,
        incremental: bool,
        preferred_derp_hint: Option<u16>,
        os_has_ipv6: bool,
        have_port_mapper: bool,
        skip_external_network: bool,
    ) -> (r: Actor)
        ensures
            r.wf(),
            r@.report == (ReportV { os_has_ipv6, ..report_default() }),
            r@.tasks == (OutstandingTasks {
                probes: true,
                port_mapper: !skip_external_network && have_port_mapper,
                captive_task: !incremental,
                hairpin: false,
            }),
            r@.incremental == incremental,
            r@.relay == relay_map@,
            r.preferred_derp_hint == preferred_derp_hint,
    {
        let mut report = Report::default();
        report.os_has_ipv6 = os_has_ipv6;
        let actor = Actor {
            relay_map,
            incremental,
            preferred_derp_hint,
            report,
            outstanding_tasks: OutstandingTasks {
                probes: true,
                port_mapper: !skip_external_network && have_port_mapper,
                captive_task: !incremental,
                hairpin: false,
            },
        };
        proof {
            assert(actor@.report =~= ReportV { os_has_ipv6, ..report_default() });
        }
        actor
    }

    /// Whether running this probe against this node would still improve
    /// the report.
    pub fn probe_would_help(&self, probe: &Probe, node: &RelayNode) -> (r: bool)
        requires
            self.wf(),
        ensures
            r == would_help_spec(self@.report, proto_of(probe@), node.region_id),
    {
        // A region we know nothing about would help.
        if !self.report.region_latency.contains(node.region_id) {
            return true;
        }
        // A first IPv6 latency would help.
        if probe.proto() == ProbeProto::Ipv6 && self.report.region_v6_latency.is_empty() {
            return true;
        }
        // A second IPv4 observation decides whether the NAT mapping varies
        // by destination.
        if probe.proto() == ProbeProto::Ipv4 && self.report.mapping_varies_by_dest_ip.is_none() {
            return true;
        }
        false
    }

    /// Notes a node's latency and the address STUN discovered; returns the
    /// duration of the abort timer to arm, if folding this observation
    /// reached [`ENOUGH_REGIONS`] regions.
    #[verifier::rlimit(60)]
    pub fn add_stun_addr_latency(
        &mut self,
        node_name: &String,
        addr: Option<SockAddr>,
        latency_ms: u64,
    ) -> (timer: Option<u64>)
        requires
            old(self).wf(),
            latency_ms <= MAX_LATENCY_MS,
        ensures
            final(self).wf(),
            final(self)@ == actor_add_stun_spec(old(self)@, node_name@, addr, latency_ms),
            (timer is Some) == stun_arms_timer(old(self)@, node_name@, latency_ms),
            timer is Some ==> timer_value_ok(
                final(self)@.report.region_latency,
                old(self).incremental,
                timer->0,
            ),
    {
        proof {
            reveal(add_stun_report_spec);
            reveal(actor_add_stun_spec);
        }
        let region_id = match self.relay_map.find_region_by_name(node_name) {
            Some(id) => id,
            None => {
                // The planner references a node the relay map does not
                // know; the report is left unchanged.
                return None;
            },
        };

        self.report.udp = true;
        self.report.region_latency.update_region(region_id, latency_ms);

        // Once enough regions have been heard from, give the rest only as
        // long as the slowest of them took — twice that for a full report.
        let timer = if self.report.region_latency.len() == ENOUGH_REGIONS {
            let max = self.report.region_latency.max_latency();
            proof {
                assert(is_max_of(self.report.region_latency@, max));
            }
            if self.incremental {
                Some(max)
            } else {
                Some(max * 2)
            }
        } else {
            None
        };

        if let Some(ipp) = addr {
            match ipp {
                SockAddr::V4 { .. } => {
                    self.report.region_v4_latency.update_region(region_id, latency_ms);
                    self.report.ipv4 = true;
                    match self.report.global_v4 {
                        None => {
                            self.report.global_v4 = Some(ipp);
                        },
                        Some(prev) => {
                            if prev != ipp {
                                self.report.mapping_varies_by_dest_ip = Some(true);
                            } else if self.report.mapping_varies_by_dest_ip.is_none() {
                                self.report.mapping_varies_by_dest_ip = Some(false);
                            }
                        },
                    }
                },
                SockAddr::V6 { .. } => {
                    self.report.region_v6_latency.update_region(region_id, latency_ms);
                    self.report.ipv6 = true;
                    self.report.global_v6 = Some(ipp);
                },
            }
        }

        timer
    }

    /// Folds one STUN probe report; returns the hairpin address to check
    /// and the abort timer to arm, if any.
    fn stun_arm(&mut self, node: &String, addr: Option<SockAddr>, delay: Option<u64>) -> (fx: (
        Option<SockAddr>,
        Option<u64>,
    ))
        requires
            old(self).wf(),
            delay is Some ==> delay->0 <= MAX_LATENCY_MS,
        ensures
            final(self).wf(),
            final(self)@ == stun_report_step(old(self)@, node@, addr, delay),
            fx.0 == stun_hairpin(old(self)@, node@, addr, delay),
            (fx.1 is Some) == stun_timer_armed(old(self)@, node@, delay),
            fx.1 is Some ==> timer_value_ok(
                final(self)@.report.region_latency,
                old(self).incremental,
                fx.1->0,
            ),
    {
        proof {
            reveal(fold_stun_spec);
            reveal(stun_report_step);
            reveal(stun_hairpin);
            reveal(stun_timer_armed);
        }
        let d = match delay {
            Some(d) => d,
            None => {
                return (None, None);
            },
        };
        let ghost s0 = self@;
        let timer = self.add_stun_addr_latency(node, addr, d);
        let mut hairpin: Option<SockAddr> = None;
        // Only the first IPv4 address matters, but the hairpin actor
        // ignores repeated starts.
        if self.report.global_v4.is_some() {
            hairpin = self.report.global_v4;
            self.outstanding_tasks.hairpin = true;
        }
        proof {
            assert(self@ == fold_stun_spec(s0, node@, addr, d));
        }
        (hairpin, timer)
    }

    /// Folds one successful probe outcome into the report.  Returns the
    /// address to start the hairpin check against (if a global IPv4
    /// address is known) and the abort timer to arm, if any.
    pub fn handle_probe_report(&mut self, probe_report: &ProbeReport) -> (fx: (
        Option<SockAddr>,
        Option<u64>,
    ))
        requires
            old(self).wf(),
            event_bounded(EventV::ProbeReport(probe_report@)),
        ensures
            final(self).wf(),
            final(self)@ == handle_probe_report_spec(old(self)@, probe_report@),
            fx.0 == probe_report_hairpin_spec(old(self)@, probe_report@),
            (fx.1 is Some) == probe_report_arms_timer(old(self)@, probe_report@),
            fx.1 is Some ==> timer_value_ok(
                final(self)@.report.region_latency,
                old(self).incremental,
                fx.1->0,
            ),
    {
        proof {
            reveal(probe_report_core_spec);
            reveal(handle_probe_report_spec);
            reveal(probe_report_hairpin_spec);
            reveal(probe_report_arms_timer);
        }
        let ghost s0 = self@;
        let ghost prv = probe_report@;
        let mut hairpin: Option<SockAddr> = None;
        let mut timer: Option<u64> = None;
        match &probe_report.probe {
            Probe::Https { region, .. } => {
                if let Some(delay) = probe_report.delay {
                    self.report.region_latency.update_region(*region, delay);
                }
                proof {
                    assert(self@ == probe_report_core_spec(s0, prv));
                }
            },
            Probe::Ipv4 { node, .. } => {
                let fx = self.stun_arm(node, probe_report.addr, probe_report.delay);
                hairpin = fx.0;
                timer = fx.1;
                proof {
                    assert(self@ == probe_report_core_spec(s0, prv));
                }
            },
            Probe::Ipv6 { node, .. } => {
                let fx = self.stun_arm(node, probe_report.addr, probe_report.delay);
                hairpin = fx.0;
                timer = fx.1;
                proof {
                    assert(self@ == probe_report_core_spec(s0, prv));
                }
            },
        }
        let ghost core = self@;
        self.report.ipv4_can_send = self.report.ipv4_can_send || probe_report.ipv4_can_send;
        self.report.ipv6_can_send = self.report.ipv6_can_send || probe_report.ipv6_can_send;
        self.report.icmpv4 = self.report.icmpv4 || probe_report.icmpv4;
        proof {
            assert(self@.report.region_latency == core.report.region_latency);
            assert(self@ == handle_probe_report_spec(s0, prv));
        }
        (hairpin, timer)
    }

    /// Stops further probes; also cancels the captive-portal check if UDP
    /// already succeeded, since it would no longer be informative.
    pub fn handle_abort_probes(&mut self)
        requires
            old(self).wf(),
        ensures
            final(self).wf(),
            final(self)@ == abort_probes_spec(old(self)@),
    {
        self.outstanding_tasks.probes = false;
        if self.report.udp {
            self.outstanding_tasks.captive_task = false;
        }
    }

    /// Handles one actor message; returns the reply to send, if the
    /// message asked a question.
    pub fn handle_message(&mut self, msg: &Message) -> (reply: Option<bool>)
        requires
            old(self).wf(),
        ensures
            final(self).wf(),
            final(self)@ == handle_message_spec(old(self)@, msg@),
            reply == msg_reply_spec(old(self)@, msg@),
    {
        match msg {
            Message::HairpinResult(works) => {
                self.report.hair_pinning = Some(*works);
                self.outstanding_tasks.hairpin = false;
                None
            },
            Message::ProbeWouldHelp(probe, node) => Some(self.probe_would_help(probe, node)),
            Message::AbortProbes => {
                self.handle_abort_probes();
                None
            },
        }
    }

    /// One iteration of the actor's select loop: folds the event into the
    /// state and names the actions the driver must perform.
    #[verifier::rlimit(60)]
    pub fn step(&mut self, event: &Event) -> (out: StepOutcome)
        requires
            old(self).wf(),
            event_bounded(event@),
        ensures
            final(self).wf(),
            final(self)@ == step_spec(old(self)@, event@),
            out.fatal == step_fatal_spec(event@),
            out.reply_would_help == step_reply_spec(old(self)@, event@),
            out.start_hairpin == step_hairpin_spec(old(self)@, event@),
            (out.arm_abort_timer_ms is Some) == step_arms_timer(old(self)@, event@),
            out.arm_abort_timer_ms is Some ==> timer_value_ok(
                final(self)@.report.region_latency,
                old(self).incremental,
                out.arm_abort_timer_ms->0,
            ),
    {
        let mut out = StepOutcome {
            fatal: None,
            reply_would_help: None,
            start_hairpin: None,
            arm_abort_timer_ms: None,
        };
        match event {
            Event::OverallTimeout => {
                out.fatal = Some(Fatal::Timeout);
            },
            Event::StunTimeout => {
                self.handle_abort_probes();
            },
            Event::PortMapper(pm) => {
                self.report.portmap_probe = *pm;
                self.outstanding_tasks.port_mapper = false;
            },
            Event::Captive(found) => {
                self.report.captive_portal = *found;
                self.outstanding_tasks.captive_task = false;
            },
            Event::ProbeReport(probe_report) => {
                let (hairpin, timer) = self.handle_probe_report(probe_report);
                out.start_hairpin = hairpin;
                out.arm_abort_timer_ms = timer;
            },
            Event::ProbeSetFailed => {},
            Event::ProbesExhausted => {
                self.handle_abort_probes();
            },
            Event::Msg(msg) => {
                out.reply_would_help = self.handle_message(msg);
            },
            Event::ChannelClosed => {
                out.fatal = Some(Fatal::ChannelClosed);
            },
        }
        out
    }
}

} // verus!
