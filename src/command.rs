//! The command shell: organ names, operator damage and healing, the saved
//! state file, and the interpreter that applies one command line to the
//! shared state.

use vstd::prelude::*;
use crate::fixed::{
    SCALE, decimal_units, fixed_text, format_fixed, format_signed, parse_decimal,
    signed_fixed_text, push_char,
};
use crate::organism::{
    Organ, OrganKind, SystemTopology, awareness_of, awareness_label, compute_awareness,
    describe_awareness, kind_name, organ_kind_str,
};
use crate::kernel::{
    Bus, LogFilter, PulseKind, TelemetrySnapshot, clamp_unit, clamp_health, status_report, format_status_report,
};
use crate::reports::{
    topology_report, nodes_report, organs_report, peripherals_report, health_report, alerts_report,
    awareness_report, mode_report, sim_status_report, metrics_report, topology_text, nodes_text,
    organs_text, peripherals_text, health_text, alerts_text, awareness_text, mode_text,
    sim_status_text, metrics_text,
};
use crate::telemetry::SimLevel;
use crate::text::{words, views, split_words, text_eq, lower_of, to_lowercase, trimmed, trim_text};

verus! {

/// The organ kind whose lower-case name (or alias) is `s`.
pub open spec fn kind_from_lower(s: Seq<char>) -> Option<OrganKind> {
    if s == "cortex"@ {
        Some(OrganKind::Cortex)
    } else if s == "memory"@ {
        Some(OrganKind::Memory)
    } else if s == "iobridge"@ || s == "io"@ {
        Some(OrganKind::IoBridge)
    } else if s == "sensorhub"@ {
        Some(OrganKind::SensorHub)
    } else if s == "motorcontrol"@ || s == "motor"@ {
        Some(OrganKind::MotorControl)
    } else if s == "network"@ {
        Some(OrganKind::Network)
    } else if s == "storage"@ {
        Some(OrganKind::Storage)
    } else {
        None
    }
}

/// The organ kind whose printed name is exactly `s`.
pub open spec fn kind_exact(s: Seq<char>) -> Option<OrganKind> {
    if s == kind_name(OrganKind::Cortex) {
        Some(OrganKind::Cortex)
    } else if s == kind_name(OrganKind::Memory) {
        Some(OrganKind::Memory)
    } else if s == kind_name(OrganKind::IoBridge) {
        Some(OrganKind::IoBridge)
    } else if s == kind_name(OrganKind::SensorHub) {
        Some(OrganKind::SensorHub)
    } else if s == kind_name(OrganKind::MotorControl) {
        Some(OrganKind::MotorControl)
    } else if s == kind_name(OrganKind::Network) {
        Some(OrganKind::Network)
    } else if s == kind_name(OrganKind::Storage) {
        Some(OrganKind::Storage)
    } else {
        None
    }
}

/// Organ names are matched without regard to case: a printed name is taken
/// as it stands, anything else through its lower-case form.
pub open spec fn kind_from_name(s: Seq<char>) -> Option<OrganKind> {
    if kind_exact(s) is Some {
        kind_exact(s)
    } else {
        kind_from_lower(lower_of(s))
    }
}

/// The organ kind named by lower-case text `s` (aliases `io` and `motor`
/// included).
pub fn organ_kind_from_lower(s: &str) -> (r: Option<OrganKind>)
    ensures
        r == kind_from_lower(s@),
{
    if text_eq(s, "cortex") {
        Some(OrganKind::Cortex)
    } else if text_eq(s, "memory") {
        Some(OrganKind::Memory)
    } else if text_eq(s, "iobridge") || text_eq(s, "io") {
        Some(OrganKind::IoBridge)
    } else if text_eq(s, "sensorhub") {
        Some(OrganKind::SensorHub)
    } else if text_eq(s, "motorcontrol") || text_eq(s, "motor") {
        Some(OrganKind::MotorControl)
    } else if text_eq(s, "network") {
        Some(OrganKind::Network)
    } else if text_eq(s, "storage") {
        Some(OrganKind::Storage)
    } else {
        None
    }
}

fn organ_kind_exact(s: &str) -> (r: Option<OrganKind>)
    ensures
        r == kind_exact(s@),
{
    if text_eq(s, organ_kind_str(OrganKind::Cortex)) {
        Some(OrganKind::Cortex)
    } else if text_eq(s, organ_kind_str(OrganKind::Memory)) {
        Some(OrganKind::Memory)
    } else if text_eq(s, organ_kind_str(OrganKind::IoBridge)) {
        Some(OrganKind::IoBridge)
    } else if text_eq(s, organ_kind_str(OrganKind::SensorHub)) {
        Some(OrganKind::SensorHub)
    } else if text_eq(s, organ_kind_str(OrganKind::MotorControl)) {
        Some(OrganKind::MotorControl)
    } else if text_eq(s, organ_kind_str(OrganKind::Network)) {
        Some(OrganKind::Network)
    } else if text_eq(s, organ_kind_str(OrganKind::Storage)) {
        Some(OrganKind::Storage)
    } else {
        None
    }
}

/// The organ kind that an operator's name stands for, in any case.
pub fn parse_organ_kind(name: &str) -> (r: Option<OrganKind>)
    ensures
        r == kind_from_name(name@),
{
    let exact = organ_kind_exact(name);
    if exact.is_some() {
        return exact;
    }
    let lower = to_lowercase(name);
    organ_kind_from_lower(lower.as_str())
}

/// Index of the first organ of `kind`, if any.
pub open spec fn first_of_kind(organs: Seq<Organ>, kind: OrganKind) -> Option<int>
    decreases organs.len(),
{
    if organs.len() == 0 {
        None
    } else {
        match first_of_kind(organs.drop_last(), kind) {
            Some(i) => Some(i),
            None => if organs.last().kind == kind {
                Some(organs.len() - 1)
            } else {
                None
            },
        }
    }
}

/// `organs` with the health of the first organ of `kind` set to `h`.
pub open spec fn with_health_of_kind(organs: Seq<Organ>, kind: OrganKind, h: nat) -> Seq<Organ> {
    match first_of_kind(organs, kind) {
        Some(i) => organs.update(i, Organ { health: h as u32, ..organs[i] }),
        None => organs,
    }
}

pub proof fn lemma_first_of_kind(organs: Seq<Organ>, kind: OrganKind, i: int)
    requires
        0 <= i <= organs.len(),
        forall|k: int| 0 <= k < i ==> organs[k].kind != kind,
        i == organs.len() || organs[i].kind == kind,
    ensures
        first_of_kind(organs, kind) == if i < organs.len() {
            Some(i)
        } else {
            None::<int>
        },
    decreases organs.len(),
{
    if organs.len() > 0 {
        if i < organs.len() {
            if i < organs.len() - 1 {
                lemma_first_of_kind(organs.drop_last(), kind, i);
            } else {
                lemma_first_of_kind(organs.drop_last(), kind, organs.len() - 1);
            }
        } else {
            lemma_first_of_kind(organs.drop_last(), kind, organs.len() - 1);
        }
    }
}

/// Finds the first organ of `kind`.
fn find_kind(topo: &SystemTopology, kind: OrganKind) -> (r: Option<usize>)
    ensures
        match r {
            Some(i) => first_of_kind(topo.organs@, kind) == Some(i as int),
            None => first_of_kind(topo.organs@, kind) is None,
        },
        r is Some ==> r->0 < topo.organs@.len(),
{
    let mut i: usize = 0;
    while i < topo.organs.len()
        invariant
            i <= topo.organs@.len(),
            forall|k: int| 0 <= k < i ==> topo.organs@[k].kind != kind,
        decreases topo.organs.len() - i,
    {
        if topo.organs[i].kind == kind {
            proof {
                lemma_first_of_kind(topo.organs@, kind, i as int);
            }
            return Some(i);
        }
        i = i + 1;
    }
    proof {
        lemma_first_of_kind(topo.organs@, kind, i as int);
    }
    None
}

/// Sets the health of the first organ of `kind`; returns whether there was one.
fn set_health_of_kind(topo: &mut SystemTopology, kind: OrganKind, h: u32) -> (r: Option<usize>)
    ensures
        final(topo).organs@ == with_health_of_kind(old(topo).organs@, kind, h as nat),
        final(topo).nodes == old(topo).nodes,
        old(topo).wf() && h <= SCALE ==> final(topo).wf(),
        r == match first_of_kind(old(topo).organs@, kind) {
            Some(i) => Some(i as usize),
            None => None::<usize>,
        },
{
    match find_kind(topo, kind) {
        Some(i) => {
            let ghost before = topo.organs@;
            topo.organs[i].health = h;
            proof {
                assert(topo.organs@ =~= before.update(i as int, Organ { health: h, ..before[i as int] }));
                if old(topo).wf() && h <= SCALE {
                    assert forall|k: int| 0 <= k < topo.organs@.len() implies #[trigger] topo.organs@[k].health
                        <= SCALE by {
                        if k != i {
                            assert(before[k].health <= SCALE);
                        }
                    }
                }
            }
            Some(i)
        },
        None => None,
    }
}

/// Health after an operator adjustment by `amount` units (subtracted for
/// damage, added for healing), clamped to `[0, 1]`.
pub open spec fn adjusted(h: nat, amount: int, heal: bool) -> nat {
    clamp_unit(if heal { h + amount } else { h - amount })
}

/// What a damage or heal command with words `ws` does to the organs.
pub open spec fn adjust_organs(organs: Seq<Organ>, ws: Seq<Seq<char>>, heal: bool) -> Seq<Organ> {
    if ws.len() == 3 && decimal_units(ws[2]) is Some && kind_from_name(ws[1]) is Some {
        let kind = kind_from_name(ws[1])->0;
        match first_of_kind(organs, kind) {
            Some(i) => with_health_of_kind(
                organs,
                kind,
                adjusted(organs[i].health as nat, decimal_units(ws[2])->0, heal),
            ),
            None => organs,
        }
    } else {
        organs
    }
}

/// The reply to a damage or heal command with words `ws` on `organs`.
pub open spec fn adjust_reply(organs: Seq<Organ>, ws: Seq<Seq<char>>, heal: bool) -> Seq<char> {
    let verb = if heal { "heal"@ } else { "damage"@ };
    if ws.len() != 3 {
        "usage: "@ + verb + " <organ> <amount>"@
    } else if decimal_units(ws[2]) is None {
        "invalid amount: "@ + ws[2]
    } else if kind_from_name(ws[1]) is None {
        "unknown organ '"@ + ws[1] + "'"@
    } else {
        let kind = kind_from_name(ws[1])->0;
        let amount = decimal_units(ws[2])->0;
        match first_of_kind(organs, kind) {
            Some(i) => {
                let h = adjusted(organs[i].health as nat, amount, heal);
                let a = awareness_of(with_health_of_kind(organs, kind, h));
                (if heal { "healed "@ } else { "damaged "@ }) + kind_name(kind) + " by "@
                    + signed_fixed_text(amount, 2) + ", new health "@ + fixed_text(h, 2)
                    + " (awareness "@ + fixed_text(a, 2) + " "@ + awareness_label(a) + ")"@
            },
            None => "organ "@ + kind_name(kind) + " not found in topology"@,
        }
    }
}

/// Whether a damage or heal command with words `ws` changes an organ.
pub open spec fn adjusts(organs: Seq<Organ>, ws: Seq<Seq<char>>) -> bool {
    &&& ws.len() == 3
    &&& decimal_units(ws[2]) is Some
    &&& kind_from_name(ws[1]) is Some
    &&& first_of_kind(organs, kind_from_name(ws[1])->0) is Some
}

/// Applies `damage <organ> <amount>` (or `heal`) given as words; the new
/// awareness is stored on the bus when an organ changed.
pub fn adjust_health(ws: &Vec<String>, heal: bool, bus: &mut Bus, topo: &mut SystemTopology) -> (r: String)
    ensures
        r@ == adjust_reply(old(topo).organs@, views(ws@), heal),
        final(topo).organs@ == adjust_organs(old(topo).organs@, views(ws@), heal),
        final(topo).nodes == old(topo).nodes,
        old(topo).wf() ==> final(topo).wf(),
        final(bus).awareness_score == if adjusts(old(topo).organs@, views(ws@)) {
            awareness_of(final(topo).organs@) as u32
        } else {
            old(bus).awareness_score
        },
        final(bus).sim_level == old(bus).sim_level,
        final(bus).log_filter == old(bus).log_filter,
        final(bus).telemetry_mode == old(bus).telemetry_mode,
        final(bus).lines() == old(bus).lines(),
        final(bus).notes() == old(bus).notes(),
        final(bus).pulses() == old(bus).pulses(),
{
    let ghost w = views(ws@);
    if ws.len() != 3 {
        let mut out = String::from_str("usage: ");
        out.append(if heal { "heal" } else { "damage" });
        out.append(" <organ> <amount>");
        return out;
    }
    assert(w[1] == ws@[1]@ && w[2] == ws@[2]@);
    let amount = match parse_decimal(ws[2].as_str()) {
        Some(v) => v,
        None => {
            let mut out = String::from_str("invalid amount: ");
            out.append(ws[2].as_str());
            return out;
        },
    };
    let kind = match parse_organ_kind(ws[1].as_str()) {
        Some(k) => k,
        None => {
            let mut out = String::from_str("unknown organ '");
            out.append(ws[1].as_str());
            out.append("'");
            return out;
        },
    };
    match find_kind(topo, kind) {
        Some(i) => {
            let old_h = topo.organs[i].health;
            let h = clamp_health(
                if heal {
                    old_h as i64 + amount
                } else {
                    old_h as i64 - amount
                },
            );
            set_health_of_kind(topo, kind, h);
            let awareness = compute_awareness(topo);
            bus.awareness_score = awareness;
            let mut out = String::from_str(if heal { "healed " } else { "damaged " });
            out.append(organ_kind_str(kind));
            out.append(" by ");
            let a = format_signed(amount, 2);
            out.append(a.as_str());
            out.append(", new health ");
            let hs = format_fixed(h as u64, 2);
            out.append(hs.as_str());
            out.append(" (awareness ");
            let aw = format_fixed(awareness as u64, 2);
            out.append(aw.as_str());
            out.append(" ");
            out.append(describe_awareness(awareness));
            out.append(")");
            out
        },
        None => {
            let mut out = String::from_str("organ ");
            out.append(organ_kind_str(kind));
            out.append(" not found in topology");
            out
        },
    }
}

/// One saved line: `Kind H` with five decimals, and a newline.
pub open spec fn state_line(o: Organ) -> Seq<char> {
    kind_name(o.kind) + " "@ + fixed_text(o.health as nat, 5) + "\n"@
}

/// The saved state of `organs`: one line per organ, in order.
pub open spec fn state_text(organs: Seq<Organ>) -> Seq<char>
    decreases organs.len(),
{
    if organs.len() == 0 {
        Seq::empty()
    } else {
        state_text(organs.drop_last()) + state_line(organs.last())
    }
}

/// The text of the state file for `topo`.
pub fn save_state_text(topo: &SystemTopology) -> (r: String)
    ensures
        r@ == state_text(topo.organs@),
{
    let ghost organs = topo.organs@;
    let mut out = String::new();
    let mut i: usize = 0;
    while i < topo.organs.len()
        invariant
            i <= organs.len(),
            organs == topo.organs@,
            out@ == state_text(organs.take(i as int)),
        decreases organs.len() - i,
    {
        proof {
            assert(organs.take(i + 1).drop_last() =~= organs.take(i as int));
            assert(organs.take(i + 1).last() == organs[i as int]);
        }
        let o = &topo.organs[i];
        out.append(organ_kind_str(o.kind));
        out.append(" ");
        let h = format_fixed(o.health as u64, 5);
        out.append(h.as_str());
        out.append("\n");
        proof {
            assert(out@ =~= state_text(organs.take(i + 1)));
        }
        i = i + 1;
    }
    proof {
        assert(organs.take(organs.len() as int) =~= organs);
    }
    out
}

/// The pieces of `s` between newlines; the last piece is what follows the
/// last newline (empty when `s` ends with one).
pub open spec fn text_lines(s: Seq<char>) -> Seq<Seq<char>>
    decreases s.len(),
{
    if s.len() == 0 {
        seq![Seq::empty()]
    } else {
        let l = text_lines(s.drop_last());
        if s.last() == '\n' {
            l.push(Seq::empty())
        } else {
            l.drop_last().push(l.last().push(s.last()))
        }
    }
}

pub proof fn lemma_text_lines_nonempty(s: Seq<char>)
    ensures
        text_lines(s).len() > 0,
    decreases s.len(),
{
    if s.len() > 0 {
        lemma_text_lines_nonempty(s.drop_last());
    }
}

/// Splits `s` at newlines.
pub fn split_lines(s: &str) -> (r: Vec<String>)
    ensures
        views(r@) == text_lines(s@),
{
    let ghost t = s@;
    let n = s.unicode_len();
    let mut out: Vec<String> = Vec::new();
    let mut cur = String::new();
    let mut i: usize = 0;
    while i < n
        invariant
            i <= n,
            n == t.len(),
            t == s@,
            text_lines(t.take(i as int)) == views(out@).push(cur@),
        decreases n - i,
    {
        let c = s.get_char(i);
        proof {
            assert(t.take(i + 1).drop_last() =~= t.take(i as int));
            assert(t.take(i + 1).last() == c);
            assert(views(out@).push(cur@).drop_last() =~= views(out@));
        }
        if c == '\n' {
            let ghost before = out@;
            out.push(cur);
            cur = String::new();
            proof {
                assert(views(out@) =~= views(before).push(out@.last()@));
            }
        } else {
            push_char(&mut cur, c);
        }
        i = i + 1;
    }
    proof {
        assert(t.take(n as int) =~= t);
        assert(t.take(0) =~= Seq::<char>::empty());
    }
    let ghost before = out@;
    out.push(cur);
    proof {
        assert(views(out@) =~= views(before).push(out@.last()@));
    }
    out
}

/// What one line of a state file does: `Kind H` sets the first organ of
/// that kind to `H` clamped to `[0, 1]`; any other line changes nothing.
pub open spec fn load_line(organs: Seq<Organ>, line: Seq<char>) -> Seq<Organ> {
    let ws = words(line);
    if ws.len() >= 2 && kind_from_name(ws[0]) is Some && decimal_units(ws[1]) is Some {
        with_health_of_kind(organs, kind_from_name(ws[0])->0, clamp_unit(decimal_units(ws[1])->0))
    } else {
        organs
    }
}

pub open spec fn load_lines(organs: Seq<Organ>, lines: Seq<Seq<char>>) -> Seq<Organ>
    decreases lines.len(),
{
    if lines.len() == 0 {
        organs
    } else {
        load_line(load_lines(organs, lines.drop_last()), lines.last())
    }
}

/// Applies one line of a state file.
fn apply_state_line(line: &str, topo: &mut SystemTopology)
    ensures
        final(topo).organs@ == load_line(old(topo).organs@, line@),
        final(topo).nodes == old(topo).nodes,
        old(topo).wf() ==> final(topo).wf(),
{
    let ws = split_words(line);
    if ws.len() < 2 {
        return;
    }
    assert(words(line@)[0] == ws@[0]@ && words(line@)[1] == ws@[1]@);
    let kind = match parse_organ_kind(ws[0].as_str()) {
        Some(k) => k,
        None => return,
    };
    let v = match parse_decimal(ws[1].as_str()) {
        Some(v) => v,
        None => return,
    };
    set_health_of_kind(topo, kind, clamp_health(v));
}

/// `state loaded from aion_state.txt (awareness A label)`
pub open spec fn loaded_reply(a: nat) -> Seq<char> {
    "state loaded from aion_state.txt (awareness "@ + fixed_text(a, 2) + " "@ + awareness_label(a) + ")"@
}

/// Applies the text of a state file line by line, then recomputes awareness
/// and stores it on the bus.
pub fn load_state(content: &str, bus: &mut Bus, topo: &mut SystemTopology) -> (r: String)
    ensures
        final(topo).organs@ == load_lines(old(topo).organs@, text_lines(content@)),
        final(topo).nodes == old(topo).nodes,
        old(topo).wf() ==> final(topo).wf(),
        final(bus).awareness_score == awareness_of(final(topo).organs@),
        final(bus).sim_level == old(bus).sim_level,
        final(bus).log_filter == old(bus).log_filter,
        final(bus).telemetry_mode == old(bus).telemetry_mode,
        final(bus).lines() == old(bus).lines(),
        final(bus).notes() == old(bus).notes(),
        final(bus).pulses() == old(bus).pulses(),
        r@ == loaded_reply(awareness_of(final(topo).organs@)),
{
    let lines = split_lines(content);
    let ghost ls = views(lines@);
    let ghost start = topo.organs@;
    let mut i: usize = 0;
    while i < lines.len()
        invariant
            i <= lines@.len(),
            ls == views(lines@),
            topo.organs@ == load_lines(start, ls.take(i as int)),
            topo.nodes == old(topo).nodes,
            start == old(topo).organs@,
            old(topo).wf() ==> topo.wf(),
        decreases lines.len() - i,
    {
        proof {
            assert(ls.take(i + 1).drop_last() =~= ls.take(i as int));
            assert(ls.take(i + 1).last() == lines@[i as int]@);
        }
        apply_state_line(lines[i].as_str(), topo);
        i = i + 1;
    }
    proof {
        assert(ls.take(ls.len() as int) =~= ls);
    }
    let awareness = compute_awareness(topo);
    bus.awareness_score = awareness;
    let mut out = String::from_str("state loaded from aion_state.txt (awareness ");
    let a = format_fixed(awareness as u64, 2);
    out.append(a.as_str());
    out.append(" ");
    out.append(describe_awareness(awareness));
    out.append(")");
    out
}

/// What a command line asks for, by its words.
#[derive(Debug, Clone, Copy, PartialEq, Eq, Structural)]
pub enum CommandKind {
    Blank,
    Help,
    Status,
    Topology,
    Nodes,
    Organs,
    Peripherals,
    Health,
    Awareness,
    Alerts,
    Mode,
    Metrics,
    SimStatus,
    SimLevel,
    Mem,
    Damage,
    Heal,
    SaveState,
    LoadState,
    Logs(LogFilter),
    Quit,
    Unknown,
}

pub open spec fn command_kind(ws: Seq<Seq<char>>) -> CommandKind {
    if ws.len() == 0 {
        CommandKind::Blank
    } else {
        let w = ws[0];
        if w == "help"@ {
            CommandKind::Help
        } else if w == "status"@ {
            CommandKind::Status
        } else if w == "topology"@ {
            CommandKind::Topology
        } else if w == "nodes"@ {
            CommandKind::Nodes
        } else if w == "organs"@ {
            CommandKind::Organs
        } else if w == "peripherals"@ {
            CommandKind::Peripherals
        } else if w == "health"@ {
            CommandKind::Health
        } else if w == "awareness"@ {
            CommandKind::Awareness
        } else if w == "alerts"@ {
            CommandKind::Alerts
        } else if w == "mode"@ {
            CommandKind::Mode
        } else if w == "metrics"@ {
            CommandKind::Metrics
        } else if w == "sim"@ && ws.len() > 1 && ws[1] == "status"@ {
            CommandKind::SimStatus
        } else if w == "sim"@ && ws.len() > 2 && ws[1] == "level"@ {
            CommandKind::SimLevel
        } else if w == "mem"@ {
            CommandKind::Mem
        } else if w == "damage"@ {
            CommandKind::Damage
        } else if w == "heal"@ {
            CommandKind::Heal
        } else if w == "save"@ && ws.len() > 1 && ws[1] == "state"@ {
            CommandKind::SaveState
        } else if w == "load"@ && ws.len() > 1 && ws[1] == "state"@ {
            CommandKind::LoadState
        } else if w == "logs"@ && ws.len() > 1 && ws[1] == "all"@ {
            CommandKind::Logs(LogFilter::All)
        } else if w == "logs"@ && ws.len() > 1 && ws[1] == "commands"@ {
            CommandKind::Logs(LogFilter::CommandsOnly)
        } else if w == "logs"@ && ws.len() > 1 && (ws[1] == "silent"@ || ws[1] == "off"@) {
            CommandKind::Logs(LogFilter::Silent)
        } else if w == "quit"@ {
            CommandKind::Quit
        } else {
            CommandKind::Unknown
        }
    }
}

/// Classifies a command line given as its words.
pub fn classify(ws: &Vec<String>) -> (r: CommandKind)
    ensures
        r == command_kind(views(ws@)),
{
    let ghost w = views(ws@);
    if ws.len() == 0 {
        return CommandKind::Blank;
    }
    assert(w[0] == ws@[0]@);
    if ws.len() > 1 {
        assert(w[1] == ws@[1]@);
    }
    let first = ws[0].as_str();
    let second = if ws.len() > 1 {
        ws[1].as_str()
    } else {
        ""
    };
    if text_eq(first, "help") {
        CommandKind::Help
    } else if text_eq(first, "status") {
        CommandKind::Status
    } else if text_eq(first, "topology") {
        CommandKind::Topology
    } else if text_eq(first, "nodes") {
        CommandKind::Nodes
    } else if text_eq(first, "organs") {
        CommandKind::Organs
    } else if text_eq(first, "peripherals") {
        CommandKind::Peripherals
    } else if text_eq(first, "health") {
        CommandKind::Health
    } else if text_eq(first, "awareness") {
        CommandKind::Awareness
    } else if text_eq(first, "alerts") {
        CommandKind::Alerts
    } else if text_eq(first, "mode") {
        CommandKind::Mode
    } else if text_eq(first, "metrics") {
        CommandKind::Metrics
    } else if text_eq(first, "sim") && ws.len() > 1 && text_eq(second, "status") {
        CommandKind::SimStatus
    } else if text_eq(first, "sim") && ws.len() > 2 && text_eq(second, "level") {
        CommandKind::SimLevel
    } else if text_eq(first, "mem") {
        CommandKind::Mem
    } else if text_eq(first, "damage") {
        CommandKind::Damage
    } else if text_eq(first, "heal") {
        CommandKind::Heal
    } else if text_eq(first, "save") && ws.len() > 1 && text_eq(second, "state") {
        CommandKind::SaveState
    } else if text_eq(first, "load") && ws.len() > 1 && text_eq(second, "state") {
        CommandKind::LoadState
    } else if text_eq(first, "logs") && ws.len() > 1 && text_eq(second, "all") {
        CommandKind::Logs(LogFilter::All)
    } else if text_eq(first, "logs") && ws.len() > 1 && text_eq(second, "commands") {
        CommandKind::Logs(LogFilter::CommandsOnly)
    } else if text_eq(first, "logs") && ws.len() > 1 && (text_eq(second, "silent") || text_eq(
        second,
        "off",
    )) {
        CommandKind::Logs(LogFilter::Silent)
    } else if text_eq(first, "quit") {
        CommandKind::Quit
    } else {
        CommandKind::Unknown
    }
}

pub open spec fn help_text() -> Seq<char> {
    "commands: help, status, topology, nodes, organs, peripherals, health, awareness, metrics, mode, alerts, sim status, sim level <off|low|high>, mem, mem get <key>, mem set <key> <value>, save state, load state, damage <organ> <amount>, heal <organ> <amount>, logs all, logs commands, logs silent, quit"@
}

/// The simulation level named by lower-case text.
pub open spec fn level_from_lower(s: Seq<char>) -> Option<SimLevel> {
    if s == "off"@ {
        Some(SimLevel::Off)
    } else if s == "low"@ {
        Some(SimLevel::Low)
    } else if s == "high"@ {
        Some(SimLevel::High)
    } else {
        None
    }
}

pub fn sim_level_from_lower(s: &str) -> (r: Option<SimLevel>)
    ensures
        r == level_from_lower(s@),
{
    if text_eq(s, "off") {
        Some(SimLevel::Off)
    } else if text_eq(s, "low") {
        Some(SimLevel::Low)
    } else if text_eq(s, "high") {
        Some(SimLevel::High)
    } else {
        None
    }
}

/// The level that `sim level <word>` asks for, the word taken in any case.
pub open spec fn requested_level(ws: Seq<Seq<char>>) -> Option<SimLevel> {
    level_from_lower(lower_of(ws[2]))
}

pub open spec fn sim_level_reply(l: Option<SimLevel>) -> Seq<char> {
    match l {
        Some(SimLevel::Off) => "simulation level set to off"@,
        Some(SimLevel::Low) => "simulation level set to low"@,
        Some(SimLevel::High) => "simulation level set to high"@,
        None => "usage: sim level <off|low|high>"@,
    }
}

pub open spec fn logs_reply(f: LogFilter) -> Seq<char> {
    match f {
        LogFilter::All => "logging: ALL pulses"@,
        LogFilter::CommandsOnly => "logging: COMMANDS ONLY"@,
        LogFilter::Silent => "logging: SILENT"@,
    }
}

/// Words joined by single spaces.
pub open spec fn joined_words(ws: Seq<Seq<char>>) -> Seq<char>
    decreases ws.len(),
{
    if ws.len() == 0 {
        Seq::empty()
    } else if ws.len() == 1 {
        ws[0]
    } else {
        joined_words(ws.drop_last()) + " "@ + ws.last()
    }
}

fn join_from(ws: &Vec<String>, start: usize) -> (r: String)
    requires
        start <= ws@.len(),
    ensures
        r@ == joined_words(views(ws@).skip(start as int)),
{
    let ghost w = views(ws@).skip(start as int);
    let mut out = String::new();
    let mut i: usize = start;
    while i < ws.len()
        invariant
            start <= i <= ws@.len(),
            w == views(ws@).skip(start as int),
            out@ == joined_words(w.take(i - start)),
        decreases ws.len() - i,
    {
        proof {
            assert(w.take(i + 1 - start).drop_last() =~= w.take(i - start));
            assert(w.take(i + 1 - start).last() == ws@[i as int]@);
            if i == start {
                assert(w.take(1)[0] == ws@[i as int]@);
            }
        }
        if i > start {
            out.append(" ");
        }
        out.append(ws[i].as_str());
        proof {
            if i == start {
                assert(out@ =~= joined_words(w.take(i + 1 - start)));
            } else {
                assert(out@ =~= joined_words(w.take(i + 1 - start)));
            }
        }
        i = i + 1;
    }
    proof {
        assert(w.take(ws@.len() - start) =~= w);
    }
    out
}

/// What a command leaves for the caller to do after it ran.
pub enum Outcome {
    /// A blank line: nothing was done.
    Skip,
    /// The reply was published on the bus.
    Replied,
    /// Write this text to the state file, then report the result.
    Save(String),
    /// Read the state file and hand its text to `load_state`.
    Load,
    /// Reply with a dump of working memory.
    MemDump,
    /// Reply with the working-memory entry under this key.
    MemGet(String),
    /// Store this text under this key in working memory, then reply.
    MemSet(String, String),
    /// The shutdown notice was published; stop the kernel.
    Quit,
}

pub open spec fn mem_usage() -> Seq<char> {
    "usage: mem [ls] | mem get <key> | mem set <key> <value>"@
}

pub open spec fn unknown_reply(line: Seq<char>) -> Seq<char> {
    "unknown command: '"@ + trimmed(line) + "'"@
}

/// The reply of a command that only reads the state.
pub open spec fn report_reply(
    k: CommandKind,
    line: Seq<char>,
    bus: Bus,
    topo: SystemTopology,
    metrics: Option<TelemetrySnapshot>,
) -> Seq<char> {
    match k {
        CommandKind::Help => help_text(),
        CommandKind::Status => status_report("manual status"@, topo, bus.awareness_score as nat),
        CommandKind::Topology => topology_report(topo),
        CommandKind::Nodes => nodes_report(topo),
        CommandKind::Organs => organs_report(topo),
        CommandKind::Peripherals => peripherals_report(topo),
        CommandKind::Health => health_report(topo),
        CommandKind::Awareness => awareness_report(awareness_of(topo.organs@)),
        CommandKind::Alerts => alerts_report(topo),
        CommandKind::Mode => mode_report(bus),
        CommandKind::Metrics => metrics_report(metrics),
        CommandKind::SimStatus => sim_status_report(topo, bus),
        CommandKind::Quit => "shutting down kernel"@,
        _ => unknown_reply(line),
    }
}

pub open spec fn is_report(k: CommandKind) -> bool {
    ||| k == CommandKind::Help
    ||| k == CommandKind::Status
    ||| k == CommandKind::Topology
    ||| k == CommandKind::Nodes
    ||| k == CommandKind::Organs
    ||| k == CommandKind::Peripherals
    ||| k == CommandKind::Health
    ||| k == CommandKind::Awareness
    ||| k == CommandKind::Alerts
    ||| k == CommandKind::Mode
    ||| k == CommandKind::Metrics
    ||| k == CommandKind::SimStatus
    ||| k == CommandKind::Quit
    ||| k == CommandKind::Unknown
}

/// `after` is `before` with one command reply `text` published and the
/// settings of `before` kept.
pub open spec fn replied(before: Bus, after: Bus, text: Seq<char>) -> bool {
    &&& before.emitted(&after, PulseKind::Command, "command"@, text)
    &&& after.same_settings(&before)
}

/// The shell: applies one command line at a time to the shared state.
pub struct CommandDaemon {}

impl CommandDaemon {
    pub fn new() -> (r: Self) {
        CommandDaemon {  }
    }

    pub fn name(&self) -> (r: &'static str)
        ensures
            r@ == "command"@,
    {
        "command"
    }

    /// Publishes a reply on the bus as a command pulse.
    pub fn reply(&self, bus: &mut Bus, text: &str)
        ensures
            replied(*old(bus), *final(bus), text@),
    {
        bus.emit(PulseKind::Command, self.name(), text);
    }

    /// Applies one command line. Replies are published on the bus; what
    /// needs the outside world (files, working memory, stopping) is returned.
    pub fn execute(
        &self,
        line: &str,
        bus: &mut Bus,
        topo: &mut SystemTopology,
        metrics: &Option<TelemetrySnapshot>,
    ) -> (r: Outcome)
        ensures
            ({
                let ws = words(line@);
                let k = command_kind(ws);
                &&& k == CommandKind::Blank ==> r is Skip && *final(bus) == *old(bus)
                    && final(topo).organs@ == old(topo).organs@
                &&& is_report(k) ==> {
                    &&& r is Replied || (k == CommandKind::Quit && r is Quit)
                    &&& k == CommandKind::Quit <==> r is Quit
                    &&& final(topo).organs@ == old(topo).organs@
                    &&& replied(*old(bus), *final(bus), report_reply(k, line@, *old(bus), *old(topo), *metrics))
                }
                &&& k == CommandKind::SimLevel ==> {
                    &&& r is Replied
                    &&& final(topo).organs@ == old(topo).organs@
                    &&& final(bus).sim_level == match requested_level(ws) {
                        Some(l) => l,
                        None => old(bus).sim_level,
                    }
                    &&& replied(
                        Bus { sim_level: final(bus).sim_level, ..*old(bus) },
                        *final(bus),
                        sim_level_reply(requested_level(ws)),
                    )
                }
                &&& k matches CommandKind::Logs(f) ==> {
                    &&& r is Replied
                    &&& final(topo).organs@ == old(topo).organs@
                    &&& final(bus).log_filter == f
                    &&& replied(Bus { log_filter: f, ..*old(bus) }, *final(bus), logs_reply(f))
                }
                &&& (k == CommandKind::Damage || k == CommandKind::Heal) ==> {
                    let heal = k == CommandKind::Heal;
                    &&& r is Replied
                    &&& final(topo).organs@ == adjust_organs(old(topo).organs@, ws, heal)
                    &&& replied(
                        Bus {
                            awareness_score: if adjusts(old(topo).organs@, ws) {
                                awareness_of(final(topo).organs@) as u32
                            } else {
                                old(bus).awareness_score
                            },
                            ..*old(bus)
                        },
                        *final(bus),
                        adjust_reply(old(topo).organs@, ws, heal),
                    )
                }
                &&& k == CommandKind::SaveState ==> *final(bus) == *old(bus) && final(topo).organs@
                    == old(topo).organs@ && (r matches Outcome::Save(c) && c@ == state_text(
                    old(topo).organs@,
                ))
                &&& k == CommandKind::LoadState ==> r is Load && *final(bus) == *old(bus)
                    && final(topo).organs@ == old(topo).organs@
                &&& k == CommandKind::Mem ==> {
                    &&& final(topo).organs@ == old(topo).organs@
                    &&& if ws.len() == 1 || (ws.len() == 2 && ws[1] == "ls"@) {
                        r is MemDump && *final(bus) == *old(bus)
                    } else if ws.len() >= 3 && ws[1] == "get"@ {
                        (r matches Outcome::MemGet(key) && key@ == ws[2]) && *final(bus) == *old(bus)
                    } else if ws.len() >= 4 && ws[1] == "set"@ {
                        (r matches Outcome::MemSet(key, value) && key@ == ws[2] && value@
                            == joined_words(ws.skip(3))) && *final(bus) == *old(bus)
                    } else {
                        r is Replied && replied(*old(bus), *final(bus), mem_usage())
                    }
                }
            }),
            final(topo).nodes == old(topo).nodes,
            old(topo).wf() ==> final(topo).wf(),
    {
        let ws = split_words(line);
        let ghost w = views(ws@);
        let kind = classify(&ws);
        if ws.len() > 1 {
            assert(w[1] == ws@[1]@);
        }
        if ws.len() > 2 {
            assert(w[2] == ws@[2]@);
        }
        match kind {
            CommandKind::Blank => Outcome::Skip,
            CommandKind::SaveState => Outcome::Save(save_state_text(topo)),
            CommandKind::LoadState => Outcome::Load,
            CommandKind::Mem => {
                if ws.len() == 1 || (ws.len() == 2 && text_eq(ws[1].as_str(), "ls")) {
                    Outcome::MemDump
                } else if ws.len() >= 3 && text_eq(ws[1].as_str(), "get") {
                    Outcome::MemGet(String::from_str(ws[2].as_str()))
                } else if ws.len() >= 4 && text_eq(ws[1].as_str(), "set") {
                    Outcome::MemSet(String::from_str(ws[2].as_str()), join_from(&ws, 3))
                } else {
                    self.reply(bus, "usage: mem [ls] | mem get <key> | mem set <key> <value>");
                    Outcome::Replied
                }
            },
            CommandKind::SimLevel => {
                let lower = to_lowercase(ws[2].as_str());
                let text = match sim_level_from_lower(lower.as_str()) {
                    Some(SimLevel::Off) => {
                        bus.sim_level = SimLevel::Off;
                        "simulation level set to off"
                    },
                    Some(SimLevel::Low) => {
                        bus.sim_level = SimLevel::Low;
                        "simulation level set to low"
                    },
                    Some(SimLevel::High) => {
                        bus.sim_level = SimLevel::High;
                        "simulation level set to high"
                    },
                    None => "usage: sim level <off|low|high>",
                };
                self.reply(bus, text);
                Outcome::Replied
            },
            CommandKind::Logs(f) => {
                bus.log_filter = f;
                let text = match f {
                    LogFilter::All => "logging: ALL pulses",
                    LogFilter::CommandsOnly => "logging: COMMANDS ONLY",
                    LogFilter::Silent => "logging: SILENT",
                };
                self.reply(bus, text);
                Outcome::Replied
            },
            CommandKind::Damage => {
                let text = adjust_health(&ws, false, bus, topo);
                self.reply(bus, text.as_str());
                Outcome::Replied
            },
            CommandKind::Heal => {
                let text = adjust_health(&ws, true, bus, topo);
                self.reply(bus, text.as_str());
                Outcome::Replied
            },
            _ => {
                let text = match kind {
                    CommandKind::Help => String::from_str(
                        "commands: help, status, topology, nodes, organs, peripherals, health, awareness, metrics, mode, alerts, sim status, sim level <off|low|high>, mem, mem get <key>, mem set <key> <value>, save state, load state, damage <organ> <amount>, heal <organ> <amount>, logs all, logs commands, logs silent, quit",
                    ),
                    CommandKind::Status => format_status_report(
                        "manual status",
                        topo,
                        bus.awareness_score,
                    ),
                    CommandKind::Topology => topology_text(topo),
                    CommandKind::Nodes => nodes_text(topo),
                    CommandKind::Organs => organs_text(topo),
                    CommandKind::Peripherals => peripherals_text(topo),
                    CommandKind::Health => health_text(topo),
                    CommandKind::Awareness => awareness_text(compute_awareness(topo)),
                    CommandKind::Alerts => alerts_text(topo),
                    CommandKind::Mode => mode_text(bus),
                    CommandKind::Metrics => metrics_text(metrics),
                    CommandKind::SimStatus => sim_status_text(topo, bus),
                    CommandKind::Quit => String::from_str("shutting down kernel"),
                    _ => {
                        let mut out = String::from_str("unknown command: '");
                        let t = trim_text(line);
                        out.append(t.as_str());
                        out.append("'");
                        out
                    },
                };
                self.reply(bus, text.as_str());
                if kind == CommandKind::Quit {
                    Outcome::Quit
                } else {
                    Outcome::Replied
                }
            },
        }
    }
}

/// What the command queue gave when asked for the next line.
#[derive(Debug, Clone, Copy, PartialEq, Eq, Structural)]
pub enum QueueEvent {
    /// A line is waiting.
    Line,
    /// Nothing is waiting now.
    Empty,
    /// The input source is gone.
    Disconnected,
}

/// What the drain of one scheduler tick does next.
#[derive(Debug, Clone, Copy, PartialEq, Eq, Structural)]
pub enum DrainStep {
    /// Run the line, then ask again.
    Run,
    /// Stop draining for this tick.
    EndTick,
    /// Publish the disconnection notice and stop draining for the rest of
    /// the run.
    Close,
}

pub open spec fn drain_step(input_open: bool, e: QueueEvent) -> DrainStep {
    if !input_open {
        DrainStep::EndTick
    } else {
        match e {
            QueueEvent::Line => DrainStep::Run,
            QueueEvent::Empty => DrainStep::EndTick,
            QueueEvent::Disconnected => DrainStep::Close,
        }
    }
}

impl CommandDaemon {
    /// The next step of draining the command queue: a waiting line runs, an
    /// empty queue ends this tick's drain, and a lost input source closes
    /// the drain for good (a closed drain only ends ticks).
    pub fn next_step(&self, input_open: bool, e: QueueEvent) -> (r: DrainStep)
        ensures
            r == drain_step(input_open, e),
    {
        if !input_open {
            DrainStep::EndTick
        } else {
            match e {
                QueueEvent::Line => DrainStep::Run,
                QueueEvent::Empty => DrainStep::EndTick,
                QueueEvent::Disconnected => DrainStep::Close,
            }
        }
    }

    /// Publishes that the command input source is gone.
    pub fn input_closed(&self, bus: &mut Bus)
        ensures
            replied(*old(bus), *final(bus), "command input channel disconnected"@),
    {
        self.reply(bus, "command input channel disconnected");
    }
}

/// `mem[key] = value`
pub fn mem_value_reply(key: &str, value: &str) -> (r: String)
    ensures
        r@ == "mem["@ + key@ + "] = "@ + value@,
{
    let mut out = String::from_str("mem[");
    out.append(key);
    out.append("] = ");
    out.append(value);
    out
}

/// `mem: key 'key' not found`
pub fn mem_missing_reply(key: &str) -> (r: String)
    ensures
        r@ == "mem: key '"@ + key@ + "' not found"@,
{
    let mut out = String::from_str("mem: key '");
    out.append(key);
    out.append("' not found");
    out
}

/// `mem[key] updated`
pub fn mem_updated_reply(key: &str) -> (r: String)
    ensures
        r@ == "mem["@ + key@ + "] updated"@,
{
    let mut out = String::from_str("mem[");
    out.append(key);
    out.append("] updated");
    out
}

/// The reply after the state file was written, or could not be (`err`
/// describes why).
pub fn save_reply(err: Option<&str>) -> (r: String)
    ensures
        r@ == match err {
            None => "state saved to aion_state.txt"@,
            Some(e) => "failed to save state: "@ + e@,
        },
{
    match err {
        None => String::from_str("state saved to aion_state.txt"),
        Some(e) => {
            let mut out = String::from_str("failed to save state: ");
            out.append(e);
            out
        },
    }
}

/// The reply when the state file could not be read.
pub fn load_failed_reply(err: &str) -> (r: String)
    ensures
        r@ == "failed to load state: "@ + err@,
{
    let mut out = String::from_str("failed to load state: ");
    out.append(err);
    out
}

} // verus!
