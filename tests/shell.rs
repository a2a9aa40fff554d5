use aion::command::{
    load_state, parse_organ_kind, save_reply, save_state_text, CommandDaemon, DrainStep, Outcome,
    QueueEvent,
};
use aion::kernel::{Bus, LogFilter, TelemetryMode};
use aion::organism::{sample_topology, OrganKind, SystemTopology};
use aion::telemetry::SimLevel;
use aion::text::{split_words, trim_text};

fn run(line: &str, bus: &mut Bus, topo: &mut SystemTopology) -> Outcome {
    CommandDaemon::new().execute(line, bus, topo, &None)
}

fn loud_bus() -> Bus {
    let mut bus = Bus::new();
    bus.log_filter = LogFilter::All;
    bus
}

fn last_reply(bus: &mut Bus) -> String {
    let lines = bus.take_lines();
    let line = lines.last().expect("a reply").clone();
    let cut = line.find(" => ").expect("a pulse line");
    line[cut + 4..].to_string()
}

#[test]
fn damage_then_heal_restores_health() {
    let mut bus = loud_bus();
    let mut t = sample_topology();
    run("damage cortex 0.1", &mut bus, &mut t);
    assert_eq!(t.organs[0].health, 88_000);
    run("heal cortex 0.1", &mut bus, &mut t);
    assert_eq!(t.organs[0].health, 98_000);
}

#[test]
fn damage_accepts_exponent_and_infinity() {
    let mut bus = loud_bus();
    let mut t = sample_topology();
    run("damage cortex 1e-1", &mut bus, &mut t);
    assert_eq!(t.organs[0].health, 88_000);
    run("damage io inf", &mut bus, &mut t);
    assert_eq!(t.organs[2].health, 0);
    run("heal io 5E-1", &mut bus, &mut t);
    assert_eq!(t.organs[2].health, 50_000);
    run("heal io nan", &mut bus, &mut t);
    assert_eq!(last_reply(&mut bus), "invalid amount: nan");
    assert_eq!(t.organs[2].health, 50_000);
}

#[test]
fn damage_clamps_before_heal() {
    let mut bus = loud_bus();
    let mut t = sample_topology();
    t.organs[1].health = 5_000;
    run("damage memory 0.2", &mut bus, &mut t);
    assert_eq!(t.organs[1].health, 0);
    run("heal Memory 0.2", &mut bus, &mut t);
    assert_eq!(t.organs[1].health, 20_000);
}

#[test]
fn damage_reports_new_health_and_awareness() {
    let mut bus = loud_bus();
    let mut t = sample_topology();
    run("damage CORTEX 0.5", &mut bus, &mut t);
    assert_eq!(t.organs[0].health, 48_000);
    // 0.5 * 0.48 + 0.3 * 0.99 + 0.2 * 0.97 = 0.731
    assert_eq!(bus.awareness_score, 73_100);
    assert_eq!(
        last_reply(&mut bus),
        "damaged Cortex by 0.50, new health 0.48 (awareness 0.73 stable)"
    );
}

#[test]
fn damage_errors_leave_state_alone() {
    let mut bus = loud_bus();
    let mut t = sample_topology();
    run("damage cortex", &mut bus, &mut t);
    assert_eq!(last_reply(&mut bus), "usage: damage <organ> <amount>");
    run("damage cortex lots", &mut bus, &mut t);
    assert_eq!(last_reply(&mut bus), "invalid amount: lots");
    run("heal brain 0.1", &mut bus, &mut t);
    assert_eq!(last_reply(&mut bus), "unknown organ 'brain'");
    run("heal storage 0.1", &mut bus, &mut t);
    assert_eq!(last_reply(&mut bus), "organ Storage not found in topology");
    assert_eq!(t.organs[0].health, 98_000);
    assert_eq!(t.organs[1].health, 99_000);
    assert_eq!(t.organs[2].health, 97_000);
    assert_eq!(bus.awareness_score, 100_000);
}

#[test]
fn organ_names_ignore_case() {
    assert_eq!(parse_organ_kind("Cortex"), Some(OrganKind::Cortex));
    assert_eq!(parse_organ_kind("CORTEX"), Some(OrganKind::Cortex));
    assert_eq!(parse_organ_kind("io"), Some(OrganKind::IoBridge));
    assert_eq!(parse_organ_kind("IoBridge"), Some(OrganKind::IoBridge));
    assert_eq!(parse_organ_kind("Motor"), Some(OrganKind::MotorControl));
    assert_eq!(parse_organ_kind("brain"), None);
}

#[test]
fn save_text_lists_each_organ() {
    let t = sample_topology();
    assert_eq!(
        save_state_text(&t),
        "Cortex 0.98000\nMemory 0.99000\nIoBridge 0.97000\n"
    );
}

#[test]
fn save_then_load_round_trip() {
    let saved = sample_topology();
    let text = save_state_text(&saved);
    let mut t = sample_topology();
    t.organs[0].health = 1;
    t.organs[1].health = 2;
    t.organs[2].health = 3;
    let mut bus = Bus::new();
    let reply = load_state(&text, &mut bus, &mut t);
    assert_eq!(t.organs[0].health, 98_000);
    assert_eq!(t.organs[1].health, 99_000);
    assert_eq!(t.organs[2].health, 97_000);
    assert_eq!(bus.awareness_score, 98_100);
    assert_eq!(reply, "state loaded from aion_state.txt (awareness 0.98 optimal)");
}

#[test]
fn load_skips_unknown_organs() {
    let mut t = sample_topology();
    let mut bus = Bus::new();
    load_state("Brain 0.5\nMemory 0.25\nCortex not-a-number\n\n", &mut bus, &mut t);
    assert_eq!(t.organs[0].health, 98_000);
    assert_eq!(t.organs[1].health, 25_000);
    assert_eq!(t.organs[2].health, 97_000);
}

#[test]
fn load_clamps_values() {
    let mut t = sample_topology();
    let mut bus = Bus::new();
    load_state("cortex 7\r\nio -1", &mut bus, &mut t);
    assert_eq!(t.organs[0].health, 100_000);
    assert_eq!(t.organs[2].health, 0);
}

#[test]
fn save_state_command_returns_file_text() {
    let mut bus = loud_bus();
    let mut t = sample_topology();
    match run("save state", &mut bus, &mut t) {
        Outcome::Save(text) => assert_eq!(text, save_state_text(&t)),
        _ => panic!("expected a save"),
    }
    assert!(matches!(run("load state", &mut bus, &mut t), Outcome::Load));
    assert_eq!(save_reply(None), "state saved to aion_state.txt");
    assert_eq!(save_reply(Some("denied")), "failed to save state: denied");
}

#[test]
fn sim_level_and_logs_commands() {
    let mut bus = loud_bus();
    let mut t = sample_topology();
    run("sim level HIGH", &mut bus, &mut t);
    assert_eq!(bus.sim_level, SimLevel::High);
    assert_eq!(last_reply(&mut bus), "simulation level set to high");
    run("sim level loud", &mut bus, &mut t);
    assert_eq!(bus.sim_level, SimLevel::High);
    assert_eq!(last_reply(&mut bus), "usage: sim level <off|low|high>");
    run("logs commands", &mut bus, &mut t);
    assert_eq!(bus.log_filter, LogFilter::CommandsOnly);
    run("logs off", &mut bus, &mut t);
    assert_eq!(bus.log_filter, LogFilter::Silent);
    assert!(bus.take_lines().len() == 1);
}

#[test]
fn read_reports() {
    let mut bus = loud_bus();
    let mut t = sample_topology();
    run("awareness", &mut bus, &mut t);
    assert_eq!(last_reply(&mut bus), "awareness index: 0.98 :: optimal");
    run("mode", &mut bus, &mut t);
    assert_eq!(last_reply(&mut bus), "mode :: telemetry=simulated :: sim_level=Low");
    bus.telemetry_mode = TelemetryMode::Real;
    run("mode", &mut bus, &mut t);
    assert_eq!(last_reply(&mut bus), "mode :: telemetry=real :: sim_level=Low");
    run("nodes", &mut bus, &mut t);
    assert_eq!(
        last_reply(&mut bus),
        "Nodes:\n - Node 1 [core-0]: primary brain\n - Node 2 [io-0]: peripheral bridge\n"
    );
    run("health", &mut bus, &mut t);
    assert_eq!(
        last_reply(&mut bus),
        "Organ health:\n - Cortex: 0.98 (ok)\n - Memory: 0.99 (ok)\n - IoBridge: 0.97 (ok)\n"
    );
    run("alerts", &mut bus, &mut t);
    assert_eq!(last_reply(&mut bus), "Alerts:\n (no active alerts; all organs healthy)\n");
    t.organs[1].health = 50_000;
    run("alerts", &mut bus, &mut t);
    assert_eq!(
        last_reply(&mut bus),
        "Alerts:\n - Memory: 0.50 [impaired]\noverall: impaired\n"
    );
    run("status", &mut bus, &mut t);
    assert_eq!(
        last_reply(&mut bus),
        "manual status :: 2 node(s), 3 organ(s) :: core-0 (primary brain), io-0 (peripheral bridge) :: health 0.50 (impaired) :: awareness 1.00 (optimal)"
    );
    run("sim status", &mut bus, &mut t);
    assert_eq!(
        last_reply(&mut bus),
        "simulation status: level=Low :: min health 0.50 :: awareness 1.00"
    );
    run("metrics", &mut bus, &mut t);
    assert_eq!(
        last_reply(&mut bus),
        "metrics not yet available (status daemon has not produced a snapshot)"
    );
}

#[test]
fn peripherals_and_topology_reports() {
    let mut bus = loud_bus();
    let mut t = sample_topology();
    run("peripherals", &mut bus, &mut t);
    assert_eq!(
        last_reply(&mut bus),
        "Peripherals by organ:\n - Organ Cortex:\n    - Cpu: Sim-CPU-0\n    - Gpu: Sim-GPU-0\n - Organ Memory:\n    - Disk: Sim-NVMe-0\n - Organ IoBridge:\n    - Nic: Sim-10G-NIC-0\n    - Usb: Sim-USB-Hub-0\n    - Display: Sim-Display-0\n"
    );
    run("topology", &mut bus, &mut t);
    assert_eq!(
        last_reply(&mut bus),
        "Topology detail:\n - Node 1 [core-0]: primary brain\n - Node 2 [io-0]: peripheral bridge\n   - Organ Cortex on Node 1 (health 0.98)\n   - Organ Memory on Node 1 (health 0.99)\n   - Organ IoBridge on Node 2 (health 0.97)\n"
    );
    let mut empty = SystemTopology { nodes: Vec::new(), organs: Vec::new() };
    run("peripherals", &mut bus, &mut empty);
    assert_eq!(
        last_reply(&mut bus),
        "Peripherals by organ:\n (no peripherals registered)\n"
    );
}

#[test]
fn unknown_blank_and_quit() {
    let mut bus = loud_bus();
    let mut t = sample_topology();
    assert!(matches!(run("   ", &mut bus, &mut t), Outcome::Skip));
    assert_eq!(bus.take_lines().len(), 0);
    run("  dance  now ", &mut bus, &mut t);
    assert_eq!(last_reply(&mut bus), "unknown command: 'dance  now'");
    run("sim", &mut bus, &mut t);
    assert_eq!(last_reply(&mut bus), "unknown command: 'sim'");
    assert!(matches!(run("quit", &mut bus, &mut t), Outcome::Quit));
    assert_eq!(last_reply(&mut bus), "shutting down kernel");
}

#[test]
fn mem_commands_are_handed_out() {
    let mut bus = loud_bus();
    let mut t = sample_topology();
    assert!(matches!(run("mem", &mut bus, &mut t), Outcome::MemDump));
    assert!(matches!(run("mem ls", &mut bus, &mut t), Outcome::MemDump));
    match run("mem get cortex.policy", &mut bus, &mut t) {
        Outcome::MemGet(k) => assert_eq!(k, "cortex.policy"),
        _ => panic!("expected a get"),
    }
    match run("mem set note hello   there world", &mut bus, &mut t) {
        Outcome::MemSet(k, v) => {
            assert_eq!(k, "note");
            assert_eq!(v, "hello there world");
        }
        _ => panic!("expected a set"),
    }
    run("mem frob", &mut bus, &mut t);
    assert_eq!(
        last_reply(&mut bus),
        "usage: mem [ls] | mem get <key> | mem set <key> <value>"
    );
}

#[test]
fn words_and_trim() {
    assert_eq!(split_words("  a\tbc \u{3000}d "), vec!["a", "bc", "d"]);
    assert!(split_words(" \n ").is_empty());
    assert_eq!(trim_text("\t x y \n"), "x y");
    assert_eq!(trim_text("   "), "");
}

#[test]
fn drain_steps() {
    let cmd = CommandDaemon::new();
    assert_eq!(cmd.next_step(true, QueueEvent::Line), DrainStep::Run);
    assert_eq!(cmd.next_step(true, QueueEvent::Empty), DrainStep::EndTick);
    assert_eq!(cmd.next_step(true, QueueEvent::Disconnected), DrainStep::Close);
    assert_eq!(cmd.next_step(false, QueueEvent::Disconnected), DrainStep::EndTick);
    let mut bus = Bus::new();
    cmd.input_closed(&mut bus);
    assert_eq!(
        bus.take_lines(),
        vec!["[BUS][Command] pulse#1 from command => command input channel disconnected".to_string()]
    );
}
