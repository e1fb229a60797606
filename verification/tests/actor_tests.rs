use netreport::actor::{Actor, Event, Fatal, Message, OutstandingTasks};
use netreport::addr::SockAddr;
use netreport::probe::{
    https_probe_result, resolve_probe_set, stun_probe_result, IcmpAttempt, Probe, ProbeError,
    ProbeReport, SetError, StunAttempt,
};
use netreport::relay::{RelayMap, RelayNode, RelayRegion};

fn node(name: &str, region_id: u16, host: &str) -> RelayNode {
    RelayNode { name: name.to_string(), region_id, host: host.to_string() }
}

fn four_region_map() -> RelayMap {
    RelayMap {
        regions: vec![
            RelayRegion { region_id: 1, avoid: false, nodes: vec![node("n1", 1, "r1.example.com")] },
            RelayRegion { region_id: 2, avoid: false, nodes: vec![node("n2", 2, "r2.example.com")] },
            RelayRegion { region_id: 3, avoid: false, nodes: vec![node("n3", 3, "r3.example.com")] },
            RelayRegion { region_id: 4, avoid: false, nodes: vec![node("n4", 4, "r4.example.com")] },
        ],
    }
}

fn stun_report(name: &str, delay: u64, addr: SockAddr) -> ProbeReport {
    ProbeReport {
        ipv4_can_send: matches!(addr, SockAddr::V4 { .. }),
        ipv6_can_send: matches!(addr, SockAddr::V6 { .. }),
        icmpv4: false,
        delay: Some(delay),
        probe: match addr {
            SockAddr::V4 { .. } => Probe::Ipv4 { node: name.to_string(), delay_ms: 0 },
            SockAddr::V6 { .. } => Probe::Ipv6 { node: name.to_string(), delay_ms: 0 },
        },
        addr: Some(addr),
    }
}

const ADDR_A: SockAddr = SockAddr::V4 { ip: 0xCB00710A, port: 4500 };
const ADDR_B: SockAddr = SockAddr::V4 { ip: 0xCB00710A, port: 4501 };

#[test]
fn happy_path_incremental() {
    let mut actor = Actor::new(four_region_map(), true, None, false, false, false);
    let out1 = actor.step(&Event::ProbeReport(stun_report("n1", 20, ADDR_A)));
    assert_eq!(out1.arm_abort_timer_ms, None);
    assert_eq!(out1.start_hairpin, Some(ADDR_A));
    let out2 = actor.step(&Event::ProbeReport(stun_report("n2", 25, ADDR_A)));
    assert_eq!(out2.arm_abort_timer_ms, None);
    let out3 = actor.step(&Event::ProbeReport(stun_report("n3", 35, ADDR_A)));
    // The third region arms the abort timer with the slowest latency; an
    // incremental report does not double it.
    assert_eq!(out3.arm_abort_timer_ms, Some(35));
    assert!(actor.report.udp);
    assert!(actor.report.ipv4);
    assert!(actor.report.ipv4_can_send);
    assert_eq!(actor.report.global_v4, Some(ADDR_A));
    assert_eq!(actor.report.mapping_varies_by_dest_ip, Some(false));
    assert_eq!(actor.report.region_latency.len(), 3);
    assert_eq!(actor.report.region_latency.get(1), Some(20));
    assert_eq!(actor.report.region_latency.get(2), Some(25));
    assert_eq!(actor.report.region_latency.get(3), Some(35));
    // The abort timer's message ends the probes; the hairpin verdict ends
    // the last outstanding task.
    actor.step(&Event::Msg(Message::AbortProbes));
    actor.step(&Event::Msg(Message::HairpinResult(true)));
    assert!(actor.outstanding_tasks.all_done());
    assert_eq!(actor.report.hair_pinning, Some(true));
}

#[test]
fn full_report_doubles_abort_timer() {
    let mut actor = Actor::new(four_region_map(), false, None, false, false, false);
    actor.step(&Event::ProbeReport(stun_report("n1", 20, ADDR_A)));
    actor.step(&Event::ProbeReport(stun_report("n2", 25, ADDR_A)));
    let out3 = actor.step(&Event::ProbeReport(stun_report("n3", 35, ADDR_A)));
    assert_eq!(out3.arm_abort_timer_ms, Some(70));
}

#[test]
fn nat_varies_by_destination() {
    let mut actor = Actor::new(four_region_map(), true, None, false, false, false);
    actor.step(&Event::ProbeReport(stun_report("n1", 20, ADDR_A)));
    actor.step(&Event::ProbeReport(stun_report("n2", 22, ADDR_B)));
    assert_eq!(actor.report.global_v4, Some(ADDR_A));
    assert_eq!(actor.report.mapping_varies_by_dest_ip, Some(true));
    // A later agreeing observation does not revert the verdict.
    actor.step(&Event::ProbeReport(stun_report("n3", 30, ADDR_A)));
    assert_eq!(actor.report.mapping_varies_by_dest_ip, Some(true));
}

#[test]
fn all_udp_blocked_keeps_captive_portal() {
    // A full report schedules the captive-portal check.
    let mut actor = Actor::new(four_region_map(), false, None, false, true, false);
    assert!(actor.outstanding_tasks.captive_task);
    assert!(actor.outstanding_tasks.port_mapper);
    // The STUN timer fires with no UDP success: probes stop, the
    // captive-portal check stays scheduled.
    let out = actor.step(&Event::StunTimeout);
    assert_eq!(out.fatal, None);
    assert!(!actor.outstanding_tasks.probes);
    assert!(actor.outstanding_tasks.captive_task);
    // Its verdict and the port mapper's resolve; the report is complete.
    actor.step(&Event::Captive(Some(true)));
    actor.step(&Event::PortMapper(None));
    assert!(!actor.report.udp);
    assert_eq!(actor.report.captive_portal, Some(true));
    assert_eq!(actor.report.portmap_probe, None);
    assert!(actor.outstanding_tasks.all_done());
}

#[test]
fn captive_portal_cancelled_after_udp_success() {
    let mut actor = Actor::new(four_region_map(), false, None, false, false, false);
    assert!(actor.outstanding_tasks.captive_task);
    actor.step(&Event::ProbeReport(stun_report("n1", 20, ADDR_A)));
    assert!(actor.report.udp);
    // UDP works, so the STUN timer expiring also cancels the captive check.
    actor.step(&Event::StunTimeout);
    assert!(!actor.outstanding_tasks.probes);
    assert!(!actor.outstanding_tasks.captive_task);
}

#[test]
fn overall_timeout_aborts_report() {
    let mut actor = Actor::new(four_region_map(), false, None, false, false, false);
    let out = actor.step(&Event::OverallTimeout);
    assert_eq!(out.fatal, Some(Fatal::Timeout));
}

#[test]
fn channel_closed_aborts_report() {
    let mut actor = Actor::new(four_region_map(), false, None, false, false, false);
    let out = actor.step(&Event::ChannelClosed);
    assert_eq!(out.fatal, Some(Fatal::ChannelClosed));
}

#[test]
fn ipv6_only_progress() {
    let v6 = SockAddr::V6 { ip_hi: 0x20010DB800000000, ip_lo: 1, port: 443 };
    let mut actor = Actor::new(four_region_map(), true, None, true, false, false);
    actor.step(&Event::ProbeReport(stun_report("n1", 11, v6)));
    actor.step(&Event::ProbeReport(stun_report("n2", 12, v6)));
    actor.step(&Event::ProbeReport(stun_report("n3", 13, v6)));
    assert!(actor.report.ipv6);
    assert!(!actor.report.ipv4);
    assert!(actor.report.udp);
    assert_eq!(actor.report.region_v6_latency.len(), 3);
    assert_eq!(actor.report.region_v4_latency.len(), 0);
    assert_eq!(actor.report.mapping_varies_by_dest_ip, None);
    assert_eq!(actor.report.global_v6, Some(v6));
    assert_eq!(actor.report.global_v4, None);
}

#[test]
fn region_latency_keeps_minimum() {
    let mut actor = Actor::new(four_region_map(), true, None, false, false, false);
    actor.step(&Event::ProbeReport(stun_report("n1", 40, ADDR_A)));
    actor.step(&Event::ProbeReport(stun_report("n1", 25, ADDR_A)));
    actor.step(&Event::ProbeReport(stun_report("n1", 30, ADDR_A)));
    assert_eq!(actor.report.region_latency.get(1), Some(25));
    assert_eq!(actor.report.region_latency.len(), 1);
}

#[test]
fn unknown_node_leaves_report_unchanged() {
    let mut actor = Actor::new(four_region_map(), true, None, false, false, false);
    actor.step(&Event::ProbeReport(stun_report("unknown", 20, ADDR_A)));
    assert!(!actor.report.udp);
    assert_eq!(actor.report.region_latency.len(), 0);
}

#[test]
fn abort_probes_is_idempotent() {
    let mut actor = Actor::new(four_region_map(), false, None, false, false, false);
    actor.step(&Event::ProbeReport(stun_report("n1", 20, ADDR_A)));
    actor.handle_abort_probes();
    let probes = actor.outstanding_tasks.probes;
    let captive = actor.outstanding_tasks.captive_task;
    actor.handle_abort_probes();
    assert_eq!(actor.outstanding_tasks.probes, probes);
    assert_eq!(actor.outstanding_tasks.captive_task, captive);
}

#[test]
fn abort_message_after_drained_stream_is_noop() {
    let mut actor = Actor::new(four_region_map(), true, None, false, false, false);
    actor.step(&Event::ProbeReport(stun_report("n1", 20, ADDR_A)));
    actor.step(&Event::ProbesExhausted);
    let tasks_before = actor.outstanding_tasks;
    let udp_before = actor.report.udp;
    actor.step(&Event::Msg(Message::AbortProbes));
    assert_eq!(actor.outstanding_tasks, tasks_before);
    assert_eq!(actor.report.udp, udp_before);
}

#[test]
fn probe_would_help_reply() {
    let mut actor = Actor::new(four_region_map(), true, None, false, false, false);
    let probe = Probe::Ipv4 { node: "n1".to_string(), delay_ms: 0 };
    let n1 = node("n1", 1, "r1.example.com");
    // An unknown region always helps.
    let out = actor.step(&Event::Msg(Message::ProbeWouldHelp(
        Probe::Ipv4 { node: "n1".to_string(), delay_ms: 0 },
        node("n1", 1, "r1.example.com"),
    )));
    assert_eq!(out.reply_would_help, Some(true));
    // Once the region is known and the NAT question is settled, an IPv4
    // probe for it no longer helps.
    actor.step(&Event::ProbeReport(stun_report("n1", 20, ADDR_A)));
    actor.step(&Event::ProbeReport(stun_report("n2", 25, ADDR_A)));
    assert!(!actor.probe_would_help(&probe, &n1));
    // An IPv6 probe still helps while no IPv6 latency exists.
    let probe6 = Probe::Ipv6 { node: "n1".to_string(), delay_ms: 0 };
    assert!(actor.probe_would_help(&probe6, &n1));
}

#[test]
fn zero_delay_probe_folds_like_any_other() {
    let mut a = Actor::new(four_region_map(), true, None, false, false, false);
    let mut b = Actor::new(four_region_map(), true, None, false, false, false);
    let mut with_zero = stun_report("n1", 20, ADDR_A);
    with_zero.probe = Probe::Ipv4 { node: "n1".to_string(), delay_ms: 0 };
    let mut with_delay = stun_report("n1", 20, ADDR_A);
    with_delay.probe = Probe::Ipv4 { node: "n1".to_string(), delay_ms: 700 };
    a.step(&Event::ProbeReport(with_zero));
    b.step(&Event::ProbeReport(with_delay));
    assert_eq!(a.report.udp, b.report.udp);
    assert_eq!(a.report.global_v4, b.report.global_v4);
    assert_eq!(a.report.region_latency.get(1), b.report.region_latency.get(1));
    assert_eq!(a.outstanding_tasks, b.outstanding_tasks);
}

#[test]
fn probe_set_first_success_wins() {
    let probe = || Probe::Ipv4 { node: "n1".to_string(), delay_ms: 0 };
    let ok = ProbeReport {
        ipv4_can_send: true,
        ipv6_can_send: false,
        icmpv4: false,
        delay: Some(9),
        probe: probe(),
        addr: Some(ADDR_A),
    };
    let outcomes = vec![Err(ProbeError::Error(probe())), Ok(ok)];
    match resolve_probe_set(outcomes) {
        Ok(report) => assert_eq!(report.delay, Some(9)),
        Err(_) => panic!("set should resolve with the report"),
    }
}

#[test]
fn probe_set_abort_terminates_set() {
    let probe = || Probe::Ipv4 { node: "n1".to_string(), delay_ms: 0 };
    let outcomes: Vec<Result<ProbeReport, ProbeError>> =
        vec![Err(ProbeError::Error(probe())), Err(ProbeError::AbortSet(probe()))];
    assert_eq!(resolve_probe_set(outcomes).unwrap_err(), SetError::Aborted);
}

#[test]
fn probe_set_all_failed() {
    let probe = || Probe::Ipv6 { node: "n1".to_string(), delay_ms: 0 };
    let outcomes: Vec<Result<ProbeReport, ProbeError>> =
        vec![Err(ProbeError::Error(probe())), Err(ProbeError::Error(probe()))];
    assert_eq!(resolve_probe_set(outcomes).unwrap_err(), SetError::AllFailed);
    assert_eq!(resolve_probe_set(Vec::new()).unwrap_err(), SetError::AllFailed);
}

#[test]
fn stun_probe_outcomes() {
    let probe = || Probe::Ipv4 { node: "n1".to_string(), delay_ms: 0 };
    let no_socket = stun_probe_result(probe(), StunAttempt::NoSocket).unwrap();
    assert!(!no_socket.ipv4_can_send);
    assert_eq!(no_socket.delay, None);
    let replied =
        stun_probe_result(probe(), StunAttempt::Replied { latency_ms: 17, addr: ADDR_A }).unwrap();
    assert!(replied.ipv4_can_send);
    assert_eq!(replied.delay, Some(17));
    assert_eq!(replied.addr, Some(ADDR_A));
    assert!(matches!(
        stun_probe_result(probe(), StunAttempt::ReplyLost),
        Err(ProbeError::Error(_))
    ));
}

#[test]
fn https_probe_outcomes() {
    let probe = || Probe::Https { region: 7, delay_ms: 0 };
    let with_icmp = https_probe_result(probe(), IcmpAttempt::Latency(12), None);
    assert_eq!(with_icmp.delay, Some(12));
    assert!(with_icmp.ipv4_can_send);
    assert!(with_icmp.icmpv4);
    let nothing = https_probe_result(probe(), IcmpAttempt::TimedOut, None);
    assert_eq!(nothing.delay, None);
    assert!(!nothing.ipv4_can_send);
    let with_https = https_probe_result(
        probe(),
        IcmpAttempt::NoPinger,
        Some((30, SockAddr::V6 { ip_hi: 0, ip_lo: 1, port: 443 })),
    );
    assert_eq!(with_https.delay, Some(30));
    assert!(with_https.ipv6_can_send);
}

#[test]
fn https_report_folds_region_latency() {
    let mut actor = Actor::new(four_region_map(), true, None, false, false, false);
    let report = ProbeReport {
        ipv4_can_send: true,
        ipv6_can_send: false,
        icmpv4: true,
        delay: Some(44),
        probe: Probe::Https { region: 2, delay_ms: 0 },
        addr: None,
    };
    actor.step(&Event::ProbeReport(report));
    // An HTTPS latency counts for the region but does not mean UDP works.
    assert_eq!(actor.report.region_latency.get(2), Some(44));
    assert!(!actor.report.udp);
    assert!(actor.report.ipv4_can_send);
    assert!(actor.report.icmpv4);
}

#[test]
fn outstanding_tasks_default_is_done() {
    let tasks = OutstandingTasks::default();
    assert!(tasks.all_done());
    let busy = OutstandingTasks { probes: true, ..tasks };
    assert!(!busy.all_done());
}
