use aion::capabilities::{CapabilityKind, CapabilityRegistry};
use aion::http::{lock_error_body, metrics_body, not_found_body, route, status_body, status_view, Endpoint, HttpServer};
use aion::kernel::{
    apply_telemetry_to_topology, AiDaemon, Bus, HeartbeatDaemon, LogFilter, PulseKind,
    SimulationDaemon, StatusDaemon, TelemetrySnapshot,
};
use aion::organism::{sample_topology, OrganId};
use aion::telemetry::{
    compute_cortex_health, compute_iobridge_health, compute_memory_health, compute_usage_ratio,
    CpuGpuMetrics, IoMetrics, MemoryMetrics, RealTelemetry, SimLevel, SimulatedTelemetry,
    TelemetryProvider, TelemetrySource,
};

fn cpu(temp: u32) -> CpuGpuMetrics {
    CpuGpuMetrics { cpu_load: 0, cpu_temp_c: temp, throttling_events: 0, gpu_load: 0, gpu_mem_util: 0 }
}

fn mem(ram: u32) -> MemoryMetrics {
    MemoryMetrics { ram_used_ratio: ram, swap_used_ratio: 0, major_page_faults: 0, disk_latency_ms: 0 }
}

fn io(loss: u32) -> IoMetrics {
    IoMetrics { net_packet_loss: loss, net_latency_ms: 0, io_queue_depth: 0, io_error_rate: 0 }
}

#[test]
fn telemetry_targets() {
    assert_eq!(compute_cortex_health(&cpu(5_000_000)), 100_000);
    // 80 C: penalty (80 - 60) / 40 = 0.5
    assert_eq!(compute_cortex_health(&cpu(8_000_000)), 50_000);
    assert_eq!(compute_cortex_health(&cpu(20_000_000)), 40_000);
    assert_eq!(compute_memory_health(&mem(90_000)), 85_000);
    assert_eq!(compute_memory_health(&mem(100_000)), 75_000);
    assert_eq!(compute_memory_health(&mem(50_000)), 100_000);
    assert_eq!(compute_iobridge_health(&io(5_000)), 80_000);
    assert_eq!(compute_iobridge_health(&io(20_000)), 60_000);
}

#[test]
fn usage_ratio_of_byte_counts() {
    assert_eq!(compute_usage_ratio(1, 4), 25_000);
    assert_eq!(compute_usage_ratio(5, 4), 100_000);
    assert_eq!(compute_usage_ratio(5, 0), 0);
    assert_eq!(compute_usage_ratio(u64::MAX, u64::MAX), 100_000);
}

#[test]
fn simulated_telemetry_follows_its_phase() {
    let mut t = SimulatedTelemetry::new(SimLevel::High);
    let c = t.read_cpu_gpu();
    // phase 1 of 60: 55 + 25 / 60 degrees
    assert_eq!(c.cpu_temp_c, 5_541_666);
    assert_eq!(c.throttling_events, 0);
    let m = t.read_memory();
    // phase 2: 0.6 + 0.35 * 2 / 60
    assert_eq!(m.ram_used_ratio, 61_166);
    let off = SimulatedTelemetry::new(SimLevel::Off).read_cpu_gpu_metrics();
    assert_eq!(off.cpu_temp_c, 4_500_000);
    assert_eq!(t.read_io_metrics().net_latency_ms, 500_000);
}

#[test]
fn host_memory_ratios_are_in_range() {
    let mut t = RealTelemetry::new(SimLevel::Low);
    let m = t.read_memory();
    assert!(m.ram_used_ratio <= 100_000);
    assert!(m.swap_used_ratio <= 100_000);
    assert_eq!(m.disk_latency_ms, 500_000);
}

#[test]
fn blend_applies_to_core_organs_only() {
    let mut t = sample_topology();
    let before_len = t.organs.len();
    apply_telemetry_to_topology(&mut t, &cpu(8_000_000), &mem(90_000), &io(0));
    assert_eq!(t.organs.len(), before_len);
    // 0.75 * 0.98 + 0.25 * 0.5 = 0.86
    assert_eq!(t.organs[0].health, 86_000);
    // 0.75 * 0.99 + 0.25 * 0.85 = 0.955
    assert_eq!(t.organs[1].health, 95_500);
    // 0.75 * 0.97 + 0.25 * 1.0 = 0.9775
    assert_eq!(t.organs[2].health, 97_750);
}

#[test]
fn bus_filters_and_numbers_pulses() {
    let mut bus = Bus::new();
    bus.emit(PulseKind::Heartbeat, "heartbeat", "beat #1");
    bus.emit(PulseKind::Command, "command", "hello");
    assert_eq!(bus.next_id, 2);
    assert_eq!(bus.take_lines(), vec!["[BUS][Command] pulse#2 from command => hello".to_string()]);
    bus.log_filter = LogFilter::Silent;
    bus.emit(PulseKind::Command, "command", "quiet");
    assert!(bus.take_lines().is_empty());
    assert_eq!(bus.next_id, 3);
}

#[test]
fn heartbeat_waits_for_its_interval() {
    let mut bus = Bus::new();
    bus.log_filter = LogFilter::All;
    let mut hb = HeartbeatDaemon::new(1000);
    hb.tick(999, &mut bus);
    assert!(bus.take_lines().is_empty());
    hb.tick(1000, &mut bus);
    assert_eq!(bus.take_lines(), vec!["[BUS][Heartbeat] pulse#1 from heartbeat => beat #1".to_string()]);
    hb.tick(1500, &mut bus);
    assert!(bus.take_lines().is_empty());
    hb.tick(2000, &mut bus);
    assert_eq!(bus.take_lines().len(), 1);
}

#[test]
fn status_daemon_blends_and_publishes() {
    let mut bus = Bus::new();
    bus.log_filter = LogFilter::All;
    let mut topo = sample_topology();
    let mut d = StatusDaemon::new(5000, TelemetrySource::Simulated(SimulatedTelemetry::new(SimLevel::Off)));
    assert!(d.poll(100).is_none());
    let snap = d.poll(5000).expect("due");
    assert_eq!(snap.cpu.cpu_temp_c, 4_500_000);
    d.apply(&snap, &mut bus, &mut topo);
    // targets are all 1.0 at rest
    assert_eq!(topo.organs[0].health, 98_500);
    assert_eq!(topo.organs[1].health, 99_250);
    assert_eq!(topo.organs[2].health, 97_750);
    assert_eq!(bus.awareness_score, 98_575);
    let notes = bus.take_notes();
    assert_eq!(notes.len(), 1);
    assert_eq!(notes[0].0, "kernel.last_status");
    assert_eq!(
        notes[0].1,
        "status tick #1 :: 2 node(s), 3 organ(s) :: core-0 (primary brain), io-0 (peripheral bridge) :: health 0.98 (ok) :: awareness 0.99 (optimal)"
    );
    assert_eq!(bus.take_lines().len(), 1);
}

#[test]
fn ai_daemon_turns_simulation_off_when_critical() {
    let mut bus = Bus::new();
    let mut topo = sample_topology();
    topo.organs[0].health = 10_000;
    topo.organs[1].health = 10_000;
    topo.organs[2].health = 10_000;
    let mut ai = AiDaemon::new(2000);
    ai.tick(2000, &mut bus, Some(&topo));
    assert_eq!(bus.sim_level, SimLevel::Off);
    let notes = bus.take_notes();
    assert_eq!(notes[0].1, "policy=protect_core(sim_off)");
    assert_eq!(notes[1].1, "0.100");
    assert_eq!(notes[2].1, "critical");
}

#[test]
fn ai_daemon_uses_bus_score_without_topology() {
    let mut bus = Bus::new();
    bus.awareness_score = 70_000;
    let mut ai = AiDaemon::new(10);
    ai.tick(10, &mut bus, None);
    assert_eq!(bus.sim_level, SimLevel::Low);
    assert_eq!(bus.take_notes()[0].1, "policy=maintain_load");
}

#[test]
fn simulation_daemon_nudges_round_robin() {
    let mut bus = Bus::new();
    bus.log_filter = LogFilter::All;
    let mut topo = sample_topology();
    let mut sim = SimulationDaemon::new(2500);
    sim.tick(2500, &mut bus, &mut topo);
    // step 1 of 3 organs hits organ 1, a low-level stress of 0.01
    assert_eq!(topo.organs[1].health, 98_000);
    assert_eq!(
        bus.take_lines(),
        vec!["[BUS][Sim] pulse#1 from sim => stress tick on Memory: health now 0.98".to_string()]
    );
    bus.sim_level = SimLevel::Off;
    sim.tick(5000, &mut bus, &mut topo);
    assert_eq!(topo.organs[2].health, 97_000);
    bus.sim_level = SimLevel::High;
    sim.tick(7500, &mut bus, &mut topo);
    // step 3 hits organ 0 with a high-level recovery of 0.03
    assert_eq!(topo.organs[0].health, 100_000);
}

#[test]
fn http_routes_and_bodies() {
    assert_eq!(route("/"), Endpoint::Home);
    assert_eq!(route("/status"), Endpoint::Status);
    assert_eq!(route("/metrics"), Endpoint::Metrics);
    assert_eq!(route("/mem"), Endpoint::Mem);
    assert_eq!(route("/nope"), Endpoint::NotFound);
    let v = status_view(&sample_topology());
    assert_eq!(
        status_body(&v),
        r#"{"health":{"score":0.970,"label":"ok"},"awareness":{"score":0.981,"label":"optimal"}}"#
    );
    let (code, body) = lock_error_body("topology");
    assert_eq!(code, 500);
    assert_eq!(body, r#"{"error":"failed to lock topology"}"#);
    let (code, body) = metrics_body(&None);
    assert_eq!(code, 503);
    assert_eq!(body, r#"{"error":"metrics not yet available"}"#);
    let snap = TelemetrySnapshot { cpu: cpu(4_500_000), mem: mem(30_000), io: io(0) };
    let (code, body) = metrics_body(&Some(snap));
    assert_eq!(code, 200);
    assert_eq!(
        body,
        r#"{"cpu":{"cpu_load":0.000,"cpu_temp_c":45.0,"throttling_events":0,"gpu_load":0.000,"gpu_mem_util":0.000},"memory":{"ram_used_ratio":0.300,"swap_used_ratio":0.000,"major_page_faults":0.000,"disk_latency_ms":0.000},"io":{"net_packet_loss":0.000,"net_latency_ms":0.000,"io_queue_depth":0.000,"io_error_rate":0.000}}"#
    );
    assert_eq!(not_found_body(), r#"{"error":"not found"}"#);
    assert_eq!(HttpServer::new("127.0.0.1:8080").addr(), "127.0.0.1:8080");
}

#[test]
fn capability_registry_bookkeeping() {
    let mut reg = CapabilityRegistry::new();
    let a = reg.register(OrganId(1), CapabilityKind::CortexCompute, "think", "general reasoning", 250_000);
    let b = reg.register(OrganId(2), CapabilityKind::StorageIo, "store", "persistence", 50_000);
    let c = reg.register(OrganId(1), CapabilityKind::StorageIo, "cache", "scratch space", 10_000);
    assert_eq!((a, b, c), (0, 1, 2));
    assert_eq!(reg.get(1).map(|x| x.label.clone()), Some("store".to_string()));
    assert_eq!(reg.get(0).map(|x| x.priority), Some(100_000));
    assert!(reg.get(9).is_none());
    let ids: Vec<u64> = reg.for_organ(OrganId(1)).iter().map(|x| x.id).collect();
    assert_eq!(ids, vec![0, 2]);
    let ids: Vec<u64> = reg.by_kind(CapabilityKind::StorageIo).iter().map(|x| x.id).collect();
    assert_eq!(ids, vec![1, 2]);
    if let Some(c) = reg.get_mut(1) {
        c.label = "archive".to_string();
    }
    assert_eq!(reg.get(1).map(|x| x.label.clone()), Some("archive".to_string()));
    assert!(reg.get_mut(7).is_none());
    if let Some(c) = reg.get_mut(1) {
        c.label = "store".to_string();
    }
    reg.set_enabled(2, false);
    assert_eq!(reg.get(2).map(|x| x.enabled), Some(false));
    assert_eq!(
        reg.describe_all(),
        "Capabilities:\n - #0 organ=1 kind=CortexCompute [enabled] prio=1.00 :: think\n   general reasoning\n - #1 organ=2 kind=StorageIo [enabled] prio=0.50 :: store\n   persistence\n - #2 organ=1 kind=StorageIo [disabled] prio=0.10 :: cache\n   scratch space\n"
    );
}
