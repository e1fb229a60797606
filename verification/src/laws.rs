//! The invariants of report generation, proved over the actor's spec
//! transitions.
//!
//! Each law quantifies over the actor state and the events it can see, so
//! it covers every run the driver can produce.

use crate::actor::{
    abort_probes_spec, actor_add_stun_spec, add_stun_report_spec, fold_stun_spec,
    handle_message_spec, handle_probe_report_spec, or_flags, probe_report_core_spec, step_spec,
    stun_report_step, ActorV, EventV, MessageV,
};
use crate::addr::SockAddr;
use crate::latency::upd_min;
use crate::probe::{ProbeReportV, ProbeV};
use crate::relay::find_node_region;
use crate::report::ReportV;
use vstd::prelude::*;

verus! {

/// What every transition preserves of a report: the reachability booleans
/// only rise, a varying NAT mapping is sticky, the global IPv4 address is
/// set at most once, and a region's known latency never grows.
pub open spec fn report_monotone(pre: ReportV, post: ReportV) -> bool {
    &&& pre.udp ==> post.udp
    &&& pre.ipv4 ==> post.ipv4
    &&& pre.ipv6 ==> post.ipv6
    &&& pre.ipv4_can_send ==> post.ipv4_can_send
    &&& pre.ipv6_can_send ==> post.ipv6_can_send
    &&& pre.icmpv4 ==> post.icmpv4
    &&& pre.mapping_varies_by_dest_ip == Some(true) ==> post.mapping_varies_by_dest_ip == Some(
        true,
    )
    &&& pre.global_v4 is Some ==> post.global_v4 == pre.global_v4
    &&& forall|k: u16|
        pre.region_latency.contains_key(k) ==> #[trigger] post.region_latency.contains_key(k)
            && post.region_latency[k] <= pre.region_latency[k]
}

proof fn lemma_monotone_add_stun_report(r: ReportV, region: u16, addr: Option<SockAddr>, lat: u64)
    ensures
        report_monotone(r, add_stun_report_spec(r, region, addr, lat)),
{
    reveal(add_stun_report_spec);
}

proof fn lemma_monotone_actor_add_stun(s: ActorV, name: Seq<char>, addr: Option<SockAddr>, lat: u64)
    ensures
        report_monotone(s.report, actor_add_stun_spec(s, name, addr, lat).report),
        actor_add_stun_spec(s, name, addr, lat).tasks == s.tasks,
{
    reveal(actor_add_stun_spec);
    if find_node_region(s.relay, name) is Some {
        lemma_monotone_add_stun_report(s.report, find_node_region(s.relay, name)->0, addr, lat);
    }
}

proof fn lemma_monotone_fold_stun(s: ActorV, node: Seq<char>, addr: Option<SockAddr>, lat: u64)
    ensures
        report_monotone(s.report, fold_stun_spec(s, node, addr, lat).report),
{
    reveal(fold_stun_spec);
    lemma_monotone_actor_add_stun(s, node, addr, lat);
}

proof fn lemma_monotone_stun_step(
    s: ActorV,
    node: Seq<char>,
    addr: Option<SockAddr>,
    delay: Option<u64>,
)
    ensures
        report_monotone(s.report, stun_report_step(s, node, addr, delay).report),
{
    reveal(stun_report_step);
    if let Some(d) = delay {
        lemma_monotone_fold_stun(s, node, addr, d);
    }
}

proof fn lemma_monotone_core(s: ActorV, pr: ProbeReportV)
    ensures
        report_monotone(s.report, probe_report_core_spec(s, pr).report),
{
    reveal(probe_report_core_spec);
    match pr.probe {
        ProbeV::Https { .. } => {},
        ProbeV::Ipv4 { node, .. } => {
            lemma_monotone_stun_step(s, node, pr.addr, pr.delay);
        },
        ProbeV::Ipv6 { node, .. } => {
            lemma_monotone_stun_step(s, node, pr.addr, pr.delay);
        },
    }
}

proof fn lemma_monotone_handle(s: ActorV, pr: ProbeReportV)
    ensures
        report_monotone(s.report, handle_probe_report_spec(s, pr).report),
{
    reveal(handle_probe_report_spec);
    lemma_monotone_core(s, pr);
}

/// Every transition preserves the report's monotone structure: the six
/// reachability booleans only rise, `mapping_varies_by_dest_ip` never
/// reverts from yes, the global IPv4 address never changes once set, and a
/// region's known latency never grows.
pub proof fn lemma_step_monotone(s: ActorV, e: EventV)
    ensures
        report_monotone(s.report, step_spec(s, e).report),
{
    match e {
        EventV::ProbeReport(pr) => {
            lemma_monotone_handle(s, pr);
        },
        _ => {},
    }
}

/// No event raises a region's known latency.
pub proof fn lemma_region_latency_monotone(s: ActorV, e: EventV, region: u16)
    requires
        s.report.region_latency.contains_key(region),
    ensures
        step_spec(s, e).report.region_latency.contains_key(region),
        step_spec(s, e).report.region_latency[region] <= s.report.region_latency[region],
{
    lemma_step_monotone(s, e);
    assert(step_spec(s, e).report.region_latency.contains_key(region));
}

/// Once the report says the NAT mapping varies by destination, no event
/// reverts it.
pub proof fn lemma_mapping_varies_sticky(s: ActorV, e: EventV)
    requires
        s.report.mapping_varies_by_dest_ip == Some(true),
    ensures
        step_spec(s, e).report.mapping_varies_by_dest_ip == Some(true),
{
    lemma_step_monotone(s, e);
}

/// The six reachability booleans only ever rise from false to true.
pub proof fn lemma_flags_monotone(s: ActorV, e: EventV)
    ensures
        s.report.udp ==> step_spec(s, e).report.udp,
        s.report.ipv4 ==> step_spec(s, e).report.ipv4,
        s.report.ipv6 ==> step_spec(s, e).report.ipv6,
        s.report.ipv4_can_send ==> step_spec(s, e).report.ipv4_can_send,
        s.report.ipv6_can_send ==> step_spec(s, e).report.ipv6_can_send,
        s.report.icmpv4 ==> step_spec(s, e).report.icmpv4,
{
    lemma_step_monotone(s, e);
}

/// The global IPv4 address is set at most once: once set, no event changes
/// it, so later differing observations can only affect the NAT-variance
/// verdict.
pub proof fn lemma_global_v4_first_wins(s: ActorV, e: EventV)
    requires
        s.report.global_v4 is Some,
    ensures
        step_spec(s, e).report.global_v4 == s.report.global_v4,
{
    lemma_step_monotone(s, e);
}

/// While UDP has not succeeded, giving up on probes leaves the
/// captive-portal check scheduled.
pub proof fn lemma_captive_stays_without_udp(s: ActorV)
    requires
        !s.report.udp,
    ensures
        abort_probes_spec(s).tasks.captive_task == s.tasks.captive_task,
        step_spec(s, EventV::StunTimeout).tasks.captive_task == s.tasks.captive_task,
{
}

/// Once UDP has succeeded, the STUN timer expiring cancels the
/// captive-portal check.
pub proof fn lemma_captive_cancelled_with_udp(s: ActorV)
    requires
        s.report.udp,
    ensures
        step_spec(s, EventV::StunTimeout).tasks.captive_task == false,
{
}

/// Giving up on probes is idempotent.
pub proof fn lemma_abort_probes_idempotent(s: ActorV)
    ensures
        abort_probes_spec(abort_probes_spec(s)) == abort_probes_spec(s),
{
}

/// An `AbortProbes` message arriving after the probe stream has already
/// drained changes nothing.
pub proof fn lemma_abort_after_drained_is_noop(s: ActorV)
    ensures
        step_spec(step_spec(s, EventV::ProbesExhausted), EventV::Msg(MessageV::AbortProbes))
            == step_spec(s, EventV::ProbesExhausted),
{
}

/// The node name a STUN probe targets.
pub open spec fn stun_node(p: ProbeV) -> Seq<char> {
    match p {
        ProbeV::Ipv4 { node, .. } => node,
        ProbeV::Ipv6 { node, .. } => node,
        ProbeV::Https { .. } => Seq::empty(),
    }
}

/// A probe report carrying a STUN probe.
pub open spec fn is_stun_report(pr: ProbeReportV) -> bool {
    (pr.probe matches ProbeV::Ipv4 { .. }) || (pr.probe matches ProbeV::Ipv6 { .. })
}

proof fn lemma_add_stun_report_ignores_flags(
    r: ReportV,
    f: ProbeReportV,
    region: u16,
    addr: Option<SockAddr>,
    lat: u64,
)
    ensures
        add_stun_report_spec(or_flags(r, f), region, addr, lat) == or_flags(
            add_stun_report_spec(r, region, addr, lat),
            f,
        ),
{
    reveal(add_stun_report_spec);
    assert(add_stun_report_spec(or_flags(r, f), region, addr, lat) =~= or_flags(
        add_stun_report_spec(r, region, addr, lat),
        f,
    ));
}

proof fn lemma_actor_add_stun_ignores_flags(
    s: ActorV,
    f: ProbeReportV,
    name: Seq<char>,
    addr: Option<SockAddr>,
    lat: u64,
)
    ensures
        actor_add_stun_spec(ActorV { report: or_flags(s.report, f), ..s }, name, addr, lat)
            == (ActorV {
            report: or_flags(actor_add_stun_spec(s, name, addr, lat).report, f),
            ..actor_add_stun_spec(s, name, addr, lat)
        }),
{
    reveal(actor_add_stun_spec);
    let s2 = ActorV { report: or_flags(s.report, f), ..s };
    match find_node_region(s.relay, name) {
        Some(region) => {
            lemma_add_stun_report_ignores_flags(s.report, f, region, addr, lat);
            assert(actor_add_stun_spec(s2, name, addr, lat) =~~= ActorV {
                report: or_flags(actor_add_stun_spec(s, name, addr, lat).report, f),
                ..actor_add_stun_spec(s, name, addr, lat)
            });
        },
        None => {
            assert(actor_add_stun_spec(s2, name, addr, lat) =~~= ActorV {
                report: or_flags(actor_add_stun_spec(s, name, addr, lat).report, f),
                ..actor_add_stun_spec(s, name, addr, lat)
            });
        },
    }
}

proof fn lemma_fold_stun_ignores_flags(
    s: ActorV,
    f: ProbeReportV,
    name: Seq<char>,
    addr: Option<SockAddr>,
    lat: u64,
)
    ensures
        fold_stun_spec(ActorV { report: or_flags(s.report, f), ..s }, name, addr, lat) == (ActorV {
            report: or_flags(fold_stun_spec(s, name, addr, lat).report, f),
            ..fold_stun_spec(s, name, addr, lat)
        }),
{
    reveal(fold_stun_spec);
    lemma_actor_add_stun_ignores_flags(s, f, name, addr, lat);
    let s2 = ActorV { report: or_flags(s.report, f), ..s };
    assert(fold_stun_spec(s2, name, addr, lat) =~~= ActorV {
        report: or_flags(fold_stun_spec(s, name, addr, lat).report, f),
        ..fold_stun_spec(s, name, addr, lat)
    });
}

proof fn lemma_core_ignores_flags(s: ActorV, f: ProbeReportV, pr: ProbeReportV)
    ensures
        probe_report_core_spec(ActorV { report: or_flags(s.report, f), ..s }, pr) == (ActorV {
            report: or_flags(probe_report_core_spec(s, pr).report, f),
            ..probe_report_core_spec(s, pr)
        }),
{
    reveal(probe_report_core_spec);
    reveal(stun_report_step);
    let s2 = ActorV { report: or_flags(s.report, f), ..s };
    match pr.probe {
        ProbeV::Https { .. } => {
            assert(probe_report_core_spec(s2, pr) =~~= ActorV {
                report: or_flags(probe_report_core_spec(s, pr).report, f),
                ..probe_report_core_spec(s, pr)
            });
        },
        ProbeV::Ipv4 { node, .. } => {
            if let Some(d) = pr.delay {
                lemma_fold_stun_ignores_flags(s, f, node, pr.addr, d);
            }
            assert(probe_report_core_spec(s2, pr) =~~= ActorV {
                report: or_flags(probe_report_core_spec(s, pr).report, f),
                ..probe_report_core_spec(s, pr)
            });
        },
        ProbeV::Ipv6 { node, .. } => {
            if let Some(d) = pr.delay {
                lemma_fold_stun_ignores_flags(s, f, node, pr.addr, d);
            }
            assert(probe_report_core_spec(s2, pr) =~~= ActorV {
                report: or_flags(probe_report_core_spec(s, pr).report, f),
                ..probe_report_core_spec(s, pr)
            });
        },
    }
}

/// Two STUN probe reports for the same node with the same latency and the
/// same observed address can be folded in either order; the final state is
/// the same.
#[verifier::rlimit(100)]
pub proof fn lemma_stun_reports_commute(s: ActorV, p: ProbeReportV, q: ProbeReportV)
    requires
        is_stun_report(p),
        is_stun_report(q),
        stun_node(p.probe) == stun_node(q.probe),
        p.delay == q.delay,
        p.addr == q.addr,
    ensures
        step_spec(step_spec(s, EventV::ProbeReport(p)), EventV::ProbeReport(q)) == step_spec(
            step_spec(s, EventV::ProbeReport(q)),
            EventV::ProbeReport(p),
        ),
{
    // Both reports carry the same measurement, so the measurement part of
    // the two folds is the same function; only the ORed flags differ, and
    // boolean OR commutes.
    let c1 = probe_report_core_spec(s, p);
    assert(probe_report_core_spec(s, q) == c1) by {
        reveal(probe_report_core_spec);
    }
    let hp = handle_probe_report_spec(s, p);
    let hq = handle_probe_report_spec(s, q);
    assert(hp == (ActorV { report: or_flags(c1.report, p), ..c1 })) by {
        reveal(handle_probe_report_spec);
    }
    assert(hq == (ActorV { report: or_flags(c1.report, q), ..c1 })) by {
        reveal(handle_probe_report_spec);
    }
    let c2 = probe_report_core_spec(c1, q);
    assert(probe_report_core_spec(c1, p) == c2) by {
        reveal(probe_report_core_spec);
    }
    lemma_core_ignores_flags(c1, p, q);
    lemma_core_ignores_flags(c1, q, p);
    let a = handle_probe_report_spec(hp, q);
    let b = handle_probe_report_spec(hq, p);
    assert(a == (ActorV { report: or_flags(or_flags(c2.report, p), q), ..c2 })) by {
        reveal(handle_probe_report_spec);
    }
    assert(b == (ActorV { report: or_flags(or_flags(c2.report, q), p), ..c2 })) by {
        reveal(handle_probe_report_spec);
    }
    assert(or_flags(or_flags(c2.report, p), q) =~= or_flags(or_flags(c2.report, q), p));
}

/// A probe's start delay plays no part in how its report is folded: two
/// probe reports that differ only in their probe's start delay produce the
/// same state.
pub proof fn lemma_probe_delay_irrelevant(s: ActorV, p: ProbeReportV, q: ProbeReportV)
    requires
        same_but_delay(p.probe, q.probe),
        p.delay == q.delay,
        p.addr == q.addr,
        p.ipv4_can_send == q.ipv4_can_send,
        p.ipv6_can_send == q.ipv6_can_send,
        p.icmpv4 == q.icmpv4,
    ensures
        step_spec(s, EventV::ProbeReport(p)) == step_spec(s, EventV::ProbeReport(q)),
{
    assert(probe_report_core_spec(s, p) == probe_report_core_spec(s, q)) by {
        reveal(probe_report_core_spec);
        reveal(stun_report_step);
    }
    assert(handle_probe_report_spec(s, p) == handle_probe_report_spec(s, q)) by {
        reveal(handle_probe_report_spec);
    }
}

/// Two probes equal in everything but their start delay.
pub open spec fn same_but_delay(p: ProbeV, q: ProbeV) -> bool {
    match (p, q) {
        (ProbeV::Ipv4 { node: n1, .. }, ProbeV::Ipv4 { node: n2, .. }) => n1 == n2,
        (ProbeV::Ipv6 { node: n1, .. }, ProbeV::Ipv6 { node: n2, .. }) => n1 == n2,
        (ProbeV::Https { region: r1, .. }, ProbeV::Https { region: r2, .. }) => r1 == r2,
        _ => false,
    }
}

/// Folding a STUN observation arms the abort timer exactly when the
/// updated latency table covers [`crate::ENOUGH_REGIONS`] regions.
pub proof fn lemma_timer_armed_exactly_at_enough(
    s: ActorV,
    name: Seq<char>,
    lat: u64,
)
    requires
        find_node_region(s.relay, name) is Some,
    ensures
        crate::actor::stun_arms_timer(s, name, lat) <==> upd_min(
            s.report.region_latency,
            find_node_region(s.relay, name)->0,
            lat,
        ).dom().len() == crate::ENOUGH_REGIONS,
{
}

} // verus!
