//! The read-only reports that the command shell prints.

use vstd::prelude::*;
use crate::fixed::{digits_of, fixed_text, format_fixed, format_u64};
use crate::organism::{
    Node, Organ, Peripheral, PeripheralKind, SystemTopology, kind_name, organ_kind_str,
    awareness_label, describe_awareness,
};
use crate::kernel::{
    Bus, TelemetryMode, TelemetrySnapshot, classify_health, compute_overall_health, health_label,
    min_health,
};
use crate::telemetry::SimLevel;

verus! {

/// ` - Node ID [label]: role` and a newline.
pub open spec fn node_line(n: Node) -> Seq<char> {
    " - Node "@ + digits_of(n.id.0 as nat) + " ["@ + n.label@ + "]: "@ + n.role@ + "\n"@
}

pub open spec fn node_lines(nodes: Seq<Node>) -> Seq<char>
    decreases nodes.len(),
{
    if nodes.len() == 0 {
        Seq::empty()
    } else {
        node_lines(nodes.drop_last()) + node_line(nodes.last())
    }
}

/// `<indent>- Organ Kind on Node N (health H)` and a newline.
pub open spec fn organ_line(indent: Seq<char>, o: Organ) -> Seq<char> {
    indent + "- Organ "@ + kind_name(o.kind) + " on Node "@ + digits_of(o.node.0 as nat) + " (health "@
        + fixed_text(o.health as nat, 2) + ")\n"@
}

pub open spec fn organ_lines(indent: Seq<char>, organs: Seq<Organ>) -> Seq<char>
    decreases organs.len(),
{
    if organs.len() == 0 {
        Seq::empty()
    } else {
        organ_lines(indent, organs.drop_last()) + organ_line(indent, organs.last())
    }
}

pub open spec fn nodes_report(t: SystemTopology) -> Seq<char> {
    "Nodes:\n"@ + node_lines(t.nodes@)
}

pub open spec fn organs_report(t: SystemTopology) -> Seq<char> {
    "Organs:\n"@ + organ_lines(" "@, t.organs@)
}

pub open spec fn topology_report(t: SystemTopology) -> Seq<char> {
    "Topology detail:\n"@ + node_lines(t.nodes@) + organ_lines("   "@, t.organs@)
}

fn append_node_lines(out: &mut String, nodes: &Vec<Node>)
    ensures
        final(out)@ == old(out)@ + node_lines(nodes@),
{
    let ghost head = out@;
    let mut i: usize = 0;
    while i < nodes.len()
        invariant
            i <= nodes@.len(),
            out@ == head + node_lines(nodes@.take(i as int)),
        decreases nodes.len() - i,
    {
        proof {
            assert(nodes@.take(i + 1).drop_last() =~= nodes@.take(i as int));
            assert(nodes@.take(i + 1).last() == nodes@[i as int]);
        }
        let node = &nodes[i];
        out.append(" - Node ");
        let id = format_u64(node.id.0 as u64);
        out.append(id.as_str());
        out.append(" [");
        out.append(node.label.as_str());
        out.append("]: ");
        out.append(node.role.as_str());
        out.append("\n");
        proof {
            assert(out@ =~= head + node_lines(nodes@.take(i + 1)));
        }
        i = i + 1;
    }
    proof {
        assert(nodes@.take(nodes@.len() as int) =~= nodes@);
    }
}

fn append_organ_lines(out: &mut String, indent: &str, organs: &Vec<Organ>)
    ensures
        final(out)@ == old(out)@ + organ_lines(indent@, organs@),
{
    let ghost head = out@;
    let mut i: usize = 0;
    while i < organs.len()
        invariant
            i <= organs@.len(),
            out@ == head + organ_lines(indent@, organs@.take(i as int)),
        decreases organs.len() - i,
    {
        proof {
            assert(organs@.take(i + 1).drop_last() =~= organs@.take(i as int));
            assert(organs@.take(i + 1).last() == organs@[i as int]);
        }
        let o = &organs[i];
        out.append(indent);
        out.append("- Organ ");
        out.append(organ_kind_str(o.kind));
        out.append(" on Node ");
        let id = format_u64(o.node.0 as u64);
        out.append(id.as_str());
        out.append(" (health ");
        let h = format_fixed(o.health as u64, 2);
        out.append(h.as_str());
        out.append(")\n");
        proof {
            assert(out@ =~= head + organ_lines(indent@, organs@.take(i + 1)));
        }
        i = i + 1;
    }
    proof {
        assert(organs@.take(organs@.len() as int) =~= organs@);
    }
}

pub fn nodes_text(t: &SystemTopology) -> (r: String)
    ensures
        r@ == nodes_report(*t),
{
    let mut out = String::from_str("Nodes:\n");
    append_node_lines(&mut out, &t.nodes);
    out
}

pub fn organs_text(t: &SystemTopology) -> (r: String)
    ensures
        r@ == organs_report(*t),
{
    let mut out = String::from_str("Organs:\n");
    append_organ_lines(&mut out, " ", &t.organs);
    out
}

pub fn topology_text(t: &SystemTopology) -> (r: String)
    ensures
        r@ == topology_report(*t),
{
    let mut out = String::from_str("Topology detail:\n");
    append_node_lines(&mut out, &t.nodes);
    append_organ_lines(&mut out, "   ", &t.organs);
    out
}

pub open spec fn peripheral_kind_name(k: PeripheralKind) -> Seq<char> {
    match k {
        PeripheralKind::Cpu => "Cpu"@,
        PeripheralKind::Gpu => "Gpu"@,
        PeripheralKind::Nic => "Nic"@,
        PeripheralKind::Disk => "Disk"@,
        PeripheralKind::Usb => "Usb"@,
        PeripheralKind::Sensor => "Sensor"@,
        PeripheralKind::Motor => "Motor"@,
        PeripheralKind::Display => "Display"@,
        PeripheralKind::Unknown => "Unknown"@,
    }
}

pub fn peripheral_kind_str(k: PeripheralKind) -> (r: &'static str)
    ensures
        r@ == peripheral_kind_name(k),
{
    match k {
        PeripheralKind::Cpu => "Cpu",
        PeripheralKind::Gpu => "Gpu",
        PeripheralKind::Nic => "Nic",
        PeripheralKind::Disk => "Disk",
        PeripheralKind::Usb => "Usb",
        PeripheralKind::Sensor => "Sensor",
        PeripheralKind::Motor => "Motor",
        PeripheralKind::Display => "Display",
        PeripheralKind::Unknown => "Unknown",
    }
}

pub open spec fn peripheral_lines(ps: Seq<Peripheral>) -> Seq<char>
    decreases ps.len(),
{
    if ps.len() == 0 {
        Seq::empty()
    } else {
        peripheral_lines(ps.drop_last()) + "    - "@ + peripheral_kind_name(ps.last().kind) + ": "@
            + ps.last().name@ + "\n"@
    }
}

/// The section of one organ: empty when it has no peripheral.
pub open spec fn peripheral_section(o: Organ) -> Seq<char> {
    if o.peripherals@.len() == 0 {
        Seq::empty()
    } else {
        " - Organ "@ + kind_name(o.kind) + ":\n"@ + peripheral_lines(o.peripherals@)
    }
}

pub open spec fn peripheral_sections(organs: Seq<Organ>) -> Seq<char>
    decreases organs.len(),
{
    if organs.len() == 0 {
        Seq::empty()
    } else {
        peripheral_sections(organs.drop_last()) + peripheral_section(organs.last())
    }
}

pub open spec fn any_peripheral(organs: Seq<Organ>) -> bool {
    exists|i: int| 0 <= i < organs.len() && #[trigger] organs[i].peripherals@.len() > 0
}

pub open spec fn peripherals_report(t: SystemTopology) -> Seq<char> {
    "Peripherals by organ:\n"@ + peripheral_sections(t.organs@) + if any_peripheral(t.organs@) {
        Seq::empty()
    } else {
        " (no peripherals registered)\n"@
    }
}

pub fn peripherals_text(t: &SystemTopology) -> (r: String)
    ensures
        r@ == peripherals_report(*t),
{
    let ghost organs = t.organs@;
    let mut out = String::from_str("Peripherals by organ:\n");
    let ghost head = out@;
    let mut any = false;
    let mut i: usize = 0;
    while i < t.organs.len()
        invariant
            i <= organs.len(),
            organs == t.organs@,
            out@ == head + peripheral_sections(organs.take(i as int)),
            any == any_peripheral(organs.take(i as int)),
        decreases organs.len() - i,
    {
        proof {
            assert(organs.take(i + 1).drop_last() =~= organs.take(i as int));
            assert(organs.take(i + 1).last() == organs[i as int]);
        }
        let o = &t.organs[i];
        let ghost sec_head = out@;
        if o.peripherals.len() > 0 {
            out.append(" - Organ ");
            out.append(organ_kind_str(o.kind));
            out.append(":\n");
            let ghost mid = out@;
            let mut j: usize = 0;
            while j < o.peripherals.len()
                invariant
                    j <= o.peripherals@.len(),
                    out@ == mid + peripheral_lines(o.peripherals@.take(j as int)),
                decreases o.peripherals.len() - j,
            {
                proof {
                    assert(o.peripherals@.take(j + 1).drop_last() =~= o.peripherals@.take(j as int));
                    assert(o.peripherals@.take(j + 1).last() == o.peripherals@[j as int]);
                }
                let p = &o.peripherals[j];
                out.append("    - ");
                out.append(peripheral_kind_str(p.kind));
                out.append(": ");
                out.append(p.name.as_str());
                out.append("\n");
                proof {
                    assert(out@ =~= mid + peripheral_lines(o.peripherals@.take(j + 1)));
                }
                j = j + 1;
            }
            proof {
                assert(o.peripherals@.take(o.peripherals@.len() as int) =~= o.peripherals@);
                assert(organs.take(i + 1)[i as int].peripherals@.len() > 0);
            }
            any = true;
        } else {
            proof {
                if any_peripheral(organs.take(i + 1)) {
                    let w = choose|w: int| 0 <= w < i + 1 && #[trigger] organs.take(i + 1)[w].peripherals@.len() > 0;
                    assert(organs.take(i as int)[w].peripherals@.len() > 0);
                }
            }
        }
        proof {
            if any_peripheral(organs.take(i as int)) {
                let w = choose|w: int| 0 <= w < i && #[trigger] organs.take(i as int)[w].peripherals@.len() > 0;
                assert(organs.take(i + 1)[w].peripherals@.len() > 0);
            }
            assert(out@ =~= head + peripheral_sections(organs.take(i + 1)));
        }
        i = i + 1;
    }
    proof {
        assert(organs.take(organs.len() as int) =~= organs);
    }
    if !any {
        out.append(" (no peripherals registered)\n");
    }
    out
}

pub open spec fn health_lines(organs: Seq<Organ>) -> Seq<char>
    decreases organs.len(),
{
    if organs.len() == 0 {
        Seq::empty()
    } else {
        let o = organs.last();
        health_lines(organs.drop_last()) + " - "@ + kind_name(o.kind) + ": "@ + fixed_text(o.health as nat, 2)
            + " ("@ + health_label(o.health as nat) + ")\n"@
    }
}

pub open spec fn health_report(t: SystemTopology) -> Seq<char> {
    "Organ health:\n"@ + health_lines(t.organs@)
}

pub fn health_text(t: &SystemTopology) -> (r: String)
    ensures
        r@ == health_report(*t),
{
    let ghost organs = t.organs@;
    let mut out = String::from_str("Organ health:\n");
    let ghost head = out@;
    let mut i: usize = 0;
    while i < t.organs.len()
        invariant
            i <= organs.len(),
            organs == t.organs@,
            out@ == head + health_lines(organs.take(i as int)),
        decreases organs.len() - i,
    {
        proof {
            assert(organs.take(i + 1).drop_last() =~= organs.take(i as int));
            assert(organs.take(i + 1).last() == organs[i as int]);
        }
        let o = &t.organs[i];
        out.append(" - ");
        out.append(organ_kind_str(o.kind));
        out.append(": ");
        let h = format_fixed(o.health as u64, 2);
        out.append(h.as_str());
        out.append(" (");
        out.append(classify_health(o.health));
        out.append(")\n");
        proof {
            assert(out@ =~= head + health_lines(organs.take(i + 1)));
        }
        i = i + 1;
    }
    proof {
        assert(organs.take(organs.len() as int) =~= organs);
    }
    out
}

/// An organ is alerting when its health is below the `ok` band.
pub open spec fn alerting(o: Organ) -> bool {
    o.health < 85_000
}

pub open spec fn alert_lines(organs: Seq<Organ>) -> Seq<char>
    decreases organs.len(),
{
    if organs.len() == 0 {
        Seq::empty()
    } else {
        let o = organs.last();
        alert_lines(organs.drop_last()) + if alerting(o) {
            " - "@ + kind_name(o.kind) + ": "@ + fixed_text(o.health as nat, 2) + " ["@ + health_label(
                o.health as nat,
            ) + "]\n"@
        } else {
            Seq::empty()
        }
    }
}

pub open spec fn any_alert(organs: Seq<Organ>) -> bool {
    exists|i: int| 0 <= i < organs.len() && alerting(#[trigger] organs[i])
}

pub open spec fn alerts_report(t: SystemTopology) -> Seq<char> {
    "Alerts:\n"@ + alert_lines(t.organs@) + if any_alert(t.organs@) {
        "overall: "@ + health_label(min_health(t.organs@)) + "\n"@
    } else {
        " (no active alerts; all organs healthy)\n"@
    }
}

pub fn alerts_text(t: &SystemTopology) -> (r: String)
    ensures
        r@ == alerts_report(*t),
{
    let ghost organs = t.organs@;
    let mut out = String::from_str("Alerts:\n");
    let ghost head = out@;
    let mut any = false;
    let mut i: usize = 0;
    while i < t.organs.len()
        invariant
            i <= organs.len(),
            organs == t.organs@,
            out@ == head + alert_lines(organs.take(i as int)),
            any == any_alert(organs.take(i as int)),
        decreases organs.len() - i,
    {
        proof {
            assert(organs.take(i + 1).drop_last() =~= organs.take(i as int));
            assert(organs.take(i + 1).last() == organs[i as int]);
        }
        let o = &t.organs[i];
        if o.health < 85_000 {
            out.append(" - ");
            out.append(organ_kind_str(o.kind));
            out.append(": ");
            let h = format_fixed(o.health as u64, 2);
            out.append(h.as_str());
            out.append(" [");
            out.append(classify_health(o.health));
            out.append("]\n");
            any = true;
            proof {
                assert(alerting(organs.take(i + 1)[i as int]));
            }
        } else {
            proof {
                if any_alert(organs.take(i + 1)) {
                    let w = choose|w: int| 0 <= w < i + 1 && alerting(#[trigger] organs.take(i + 1)[w]);
                    assert(alerting(organs.take(i as int)[w]));
                }
            }
        }
        proof {
            if any_alert(organs.take(i as int)) {
                let w = choose|w: int| 0 <= w < i && alerting(#[trigger] organs.take(i as int)[w]);
                assert(alerting(organs.take(i + 1)[w]));
            }
            assert(out@ =~= head + alert_lines(organs.take(i + 1)));
        }
        i = i + 1;
    }
    proof {
        assert(organs.take(organs.len() as int) =~= organs);
    }
    if any {
        out.append("overall: ");
        let overall = compute_overall_health(t);
        out.append(classify_health(overall));
        out.append("\n");
    } else {
        out.append(" (no active alerts; all organs healthy)\n");
    }
    out
}

/// `awareness index: A :: label`
pub open spec fn awareness_report(a: nat) -> Seq<char> {
    "awareness index: "@ + fixed_text(a, 2) + " :: "@ + awareness_label(a)
}

pub fn awareness_text(a: u32) -> (r: String)
    ensures
        r@ == awareness_report(a as nat),
{
    let mut out = String::from_str("awareness index: ");
    let s = format_fixed(a as u64, 2);
    out.append(s.as_str());
    out.append(" :: ");
    out.append(describe_awareness(a));
    out
}

pub open spec fn sim_level_name(l: SimLevel) -> Seq<char> {
    match l {
        SimLevel::Off => "Off"@,
        SimLevel::Low => "Low"@,
        SimLevel::High => "High"@,
    }
}

pub fn sim_level_str(l: SimLevel) -> (r: &'static str)
    ensures
        r@ == sim_level_name(l),
{
    match l {
        SimLevel::Off => "Off",
        SimLevel::Low => "Low",
        SimLevel::High => "High",
    }
}

/// `mode :: telemetry=simulated|real :: sim_level=Level`
pub open spec fn mode_report(bus: Bus) -> Seq<char> {
    "mode :: telemetry="@ + match bus.telemetry_mode {
        TelemetryMode::Simulated => "simulated"@,
        TelemetryMode::Real => "real"@,
    } + " :: sim_level="@ + sim_level_name(bus.sim_level)
}

pub fn mode_text(bus: &Bus) -> (r: String)
    ensures
        r@ == mode_report(*bus),
{
    let mut out = String::from_str("mode :: telemetry=");
    out.append(
        match bus.telemetry_mode {
            TelemetryMode::Simulated => "simulated",
            TelemetryMode::Real => "real",
        },
    );
    out.append(" :: sim_level=");
    out.append(sim_level_str(bus.sim_level));
    out
}

/// `simulation status: level=L :: min health H :: awareness A`
pub open spec fn sim_status_report(t: SystemTopology, bus: Bus) -> Seq<char> {
    "simulation status: level="@ + sim_level_name(bus.sim_level) + " :: min health "@ + fixed_text(
        min_health(t.organs@),
        2,
    ) + " :: awareness "@ + fixed_text(bus.awareness_score as nat, 2)
}

pub fn sim_status_text(t: &SystemTopology, bus: &Bus) -> (r: String)
    ensures
        r@ == sim_status_report(*t, *bus),
{
    let mut out = String::from_str("simulation status: level=");
    out.append(sim_level_str(bus.sim_level));
    out.append(" :: min health ");
    let h = format_fixed(compute_overall_health(t) as u64, 2);
    out.append(h.as_str());
    out.append(" :: awareness ");
    let a = format_fixed(bus.awareness_score as u64, 2);
    out.append(a.as_str());
    out
}

/// One metric line: `  name: value` with the given decimals, and a suffix.
pub open spec fn metric_line(label: Seq<char>, v: nat, places: nat, suffix: Seq<char>) -> Seq<char> {
    "  "@ + label + ": "@ + fixed_text(v, places) + suffix + "\n"@
}

pub open spec fn metrics_report(m: Option<TelemetrySnapshot>) -> Seq<char> {
    match m {
        None => "metrics not yet available (status daemon has not produced a snapshot)"@,
        Some(s) => "Metrics snapshot (from status daemon):\n"@ + " Cortex / CPU+GPU:\n"@
            + metric_line("cpu_load      "@, s.cpu.cpu_load as nat, 2, ""@)
            + metric_line("cpu_temp_c    "@, s.cpu.cpu_temp_c as nat, 1, ""@)
            + "  throttling    : "@ + digits_of(s.cpu.throttling_events as nat) + "\n"@
            + metric_line("gpu_load      "@, s.cpu.gpu_load as nat, 2, ""@)
            + metric_line("gpu_mem_util  "@, s.cpu.gpu_mem_util as nat, 2, ""@)
            + " Memory:\n"@
            + metric_line("ram_used      "@, s.mem.ram_used_ratio as nat, 2, ""@)
            + metric_line("swap_used     "@, s.mem.swap_used_ratio as nat, 2, ""@)
            + metric_line("page_faults   "@, s.mem.major_page_faults as nat, 1, ""@)
            + metric_line("disk_latency  "@, s.mem.disk_latency_ms as nat, 1, " ms"@)
            + " IoBridge / IO+Net:\n"@
            + metric_line("net_loss      "@, s.io.net_packet_loss as nat, 3, ""@)
            + metric_line("net_latency   "@, s.io.net_latency_ms as nat, 1, " ms"@)
            + metric_line("io_queue      "@, s.io.io_queue_depth as nat, 2, ""@)
            + metric_line("io_error_rate "@, s.io.io_error_rate as nat, 3, ""@),
    }
}

fn append_metric(out: &mut String, label: &str, v: u32, places: u32, suffix: &str)
    requires
        places <= 5,
    ensures
        final(out)@ == old(out)@ + metric_line(label@, v as nat, places as nat, suffix@),
{
    out.append("  ");
    out.append(label);
    out.append(": ");
    let s = format_fixed(v as u64, places);
    out.append(s.as_str());
    out.append(suffix);
    out.append("\n");
}

pub fn metrics_text(m: &Option<TelemetrySnapshot>) -> (r: String)
    ensures
        r@ == metrics_report(*m),
{
    match m {
        None => String::from_str("metrics not yet available (status daemon has not produced a snapshot)"),
        Some(s) => {
            let mut out = String::from_str("Metrics snapshot (from status daemon):\n");
            out.append(" Cortex / CPU+GPU:\n");
            append_metric(&mut out, "cpu_load      ", s.cpu.cpu_load, 2, "");
            append_metric(&mut out, "cpu_temp_c    ", s.cpu.cpu_temp_c, 1, "");
            out.append("  throttling    : ");
            let t = format_u64(s.cpu.throttling_events as u64);
            out.append(t.as_str());
            out.append("\n");
            append_metric(&mut out, "gpu_load      ", s.cpu.gpu_load, 2, "");
            append_metric(&mut out, "gpu_mem_util  ", s.cpu.gpu_mem_util, 2, "");
            out.append(" Memory:\n");
            append_metric(&mut out, "ram_used      ", s.mem.ram_used_ratio, 2, "");
            append_metric(&mut out, "swap_used     ", s.mem.swap_used_ratio, 2, "");
            append_metric(&mut out, "page_faults   ", s.mem.major_page_faults, 1, "");
            append_metric(&mut out, "disk_latency  ", s.mem.disk_latency_ms, 1, " ms");
            out.append(" IoBridge / IO+Net:\n");
            append_metric(&mut out, "net_loss      ", s.io.net_packet_loss, 3, "");
            append_metric(&mut out, "net_latency   ", s.io.net_latency_ms, 1, " ms");
            append_metric(&mut out, "io_queue      ", s.io.io_queue_depth, 2, "");
            append_metric(&mut out, "io_error_rate ", s.io.io_error_rate, 3, "");
            out
        },
    }
}

} // verus!
