//! The kernel: the bus that daemons publish on, the health rules, and the
//! periodic daemons (heartbeat, status, AI policy, simulation).

use vstd::prelude::*;
use crate::fixed::{SCALE, digits_of, fixed_text, format_fixed, format_u64};
use crate::organism::{
    OrganKind, SystemTopology, Organ, awareness_of, awareness_label, compute_awareness,
    describe_awareness, format_topology_brief, topology_brief, kind_name,
    organ_kind_str,
};
use crate::telemetry::{
    CpuGpuMetrics, MemoryMetrics, IoMetrics, SimLevel, TelemetrySource, reading,
    cortex_target, memory_target, iobridge_target, compute_cortex_health, compute_memory_health,
    compute_iobridge_health, next_tick,
};

verus! {

/// A snapshot of the most recent telemetry as seen by the status daemon.
#[derive(Debug, Clone, Copy, PartialEq, Eq, Structural)]
pub struct TelemetrySnapshot {
    pub cpu: CpuGpuMetrics,
    pub mem: MemoryMetrics,
    pub io: IoMetrics,
}

pub open spec fn health_label(h: nat) -> Seq<char> {
    if h >= 85_000 {
        "ok"@
    } else if h >= 60_000 {
        "degraded"@
    } else if h >= 35_000 {
        "impaired"@
    } else if h > 0 {
        "critical"@
    } else {
        "failed"@
    }
}

/// Turn a health score into a label; each band includes its lower bound.
pub fn classify_health(h: u32) -> (r: &'static str)
    ensures
        r@ == health_label(h as nat),
{
    if h >= 85_000 {
        "ok"
    } else if h >= 60_000 {
        "degraded"
    } else if h >= 35_000 {
        "impaired"
    } else if h > 0 {
        "critical"
    } else {
        "failed"
    }
}

/// The least of full health and every organ's health.
pub open spec fn min_health(organs: Seq<Organ>) -> nat
    decreases organs.len(),
{
    if organs.len() == 0 {
        SCALE as nat
    } else {
        let rest = min_health(organs.drop_last());
        if (organs.last().health as nat) < rest {
            organs.last().health as nat
        } else {
            rest
        }
    }
}

/// Overall health: the minimum health across all organs (`1.0` when there
/// is none).
pub fn compute_overall_health(topo: &SystemTopology) -> (r: u32)
    ensures
        r == min_health(topo.organs@),
{
    let ghost organs = topo.organs@;
    let mut acc: u32 = SCALE;
    let mut i: usize = 0;
    while i < topo.organs.len()
        invariant
            i <= organs.len(),
            organs == topo.organs@,
            acc == min_health(organs.take(i as int)),
        decreases organs.len() - i,
    {
        proof {
            assert(organs.take(i + 1).drop_last() =~= organs.take(i as int));
            assert(organs.take(i + 1).last() == organs[i as int]);
        }
        if topo.organs[i].health < acc {
            acc = topo.organs[i].health;
        }
        i = i + 1;
    }
    proof {
        assert(organs.take(organs.len() as int) =~= organs);
    }
    acc
}

/// `v` clamped to `[0, SCALE]`.
pub open spec fn clamp_unit(v: int) -> nat {
    if v < 0 {
        0
    } else if v > SCALE {
        SCALE as nat
    } else {
        v as nat
    }
}

pub fn clamp_health(v: i64) -> (r: u32)
    ensures
        r == clamp_unit(v as int),
{
    if v < 0 {
        0
    } else if v > SCALE as i64 {
        SCALE
    } else {
        v as u32
    }
}

/// One blend step with smoothing factor `0.25`: `0.75 * current + 0.25 *
/// target`, both first clamped to `[0, 1]`, rounded towards the target.
pub open spec fn blended(current: nat, target: nat) -> nat {
    let c = clamp_unit(current as int);
    let t = clamp_unit(target as int);
    if c <= t {
        (3 * c + t + 3) / 4
    } else {
        (3 * c + t) / 4
    }
}

pub fn blend_health(current: u32, target: u32) -> (r: u32)
    ensures
        r == blended(current as nat, target as nat),
        r <= SCALE,
{
    let c: u64 = if current > SCALE {
        SCALE as u64
    } else {
        current as u64
    };
    let t: u64 = if target > SCALE {
        SCALE as u64
    } else {
        target as u64
    };
    if c <= t {
        ((3 * c + t + 3) / 4) as u32
    } else {
        ((3 * c + t) / 4) as u32
    }
}

/// An organ's health after one telemetry blend toward the given targets;
/// organs other than the three core roles keep their health.
pub open spec fn blended_health(o: Organ, ct: nat, mt: nat, it: nat) -> nat {
    match o.kind {
        OrganKind::Cortex => blended(o.health as nat, ct),
        OrganKind::Memory => blended(o.health as nat, mt),
        OrganKind::IoBridge => blended(o.health as nat, it),
        _ => o.health as nat,
    }
}

/// `after` holds the organs of `before`, in order, with only their health
/// free to differ.
pub open spec fn same_but_health(before: Seq<Organ>, after: Seq<Organ>) -> bool {
    &&& after.len() == before.len()
    &&& forall|i: int|
        0 <= i < before.len() ==> {
            &&& #[trigger] after[i].id == before[i].id
            &&& after[i].node == before[i].node
            &&& after[i].kind == before[i].kind
            &&& after[i].caps == before[i].caps
            &&& after[i].peripherals == before[i].peripherals
        }
}

pub fn apply_telemetry_to_topology(
    topology: &mut SystemTopology,
    cpu_gpu: &CpuGpuMetrics,
    mem: &MemoryMetrics,
    io: &IoMetrics,
)
    ensures
        final(topology).nodes == old(topology).nodes,
        old(topology).wf() ==> final(topology).wf(),
        same_but_health(old(topology).organs@, final(topology).organs@),
        forall|i: int|
            0 <= i < old(topology).organs@.len() ==> #[trigger] final(topology).organs@[i].health
                == blended_health(
                old(topology).organs@[i],
                cortex_target(*cpu_gpu),
                memory_target(*mem),
                iobridge_target(*io),
            ),
{
    let target_cortex = compute_cortex_health(cpu_gpu);
    let target_memory = compute_memory_health(mem);
    let target_iobridge = compute_iobridge_health(io);
    let ghost before = topology.organs@;
    let mut i: usize = 0;
    while i < topology.organs.len()
        invariant
            i <= before.len(),
            topology.organs@.len() == before.len(),
            topology.nodes == old(topology).nodes,
            before == old(topology).organs@,
            same_but_health(before, topology.organs@),
            forall|k: int|
                0 <= k < i ==> #[trigger] topology.organs@[k].health == blended_health(
                    before[k],
                    target_cortex as nat,
                    target_memory as nat,
                    target_iobridge as nat,
                ),
            forall|k: int| i <= k < before.len() ==> #[trigger] topology.organs@[k].health == before[k].health,
        decreases before.len() - i,
    {
        let h = topology.organs[i].health;
        let new_h = match topology.organs[i].kind {
            OrganKind::Cortex => blend_health(h, target_cortex),
            OrganKind::Memory => blend_health(h, target_memory),
            OrganKind::IoBridge => blend_health(h, target_iobridge),
            _ => h,
        };
        let ghost prev = topology.organs@;
        topology.organs[i].health = new_h;
        proof {
            assert forall|k: int| 0 <= k < before.len() implies {
                &&& #[trigger] topology.organs@[k].id == before[k].id
                &&& topology.organs@[k].node == before[k].node
                &&& topology.organs@[k].kind == before[k].kind
                &&& topology.organs@[k].caps == before[k].caps
                &&& topology.organs@[k].peripherals == before[k].peripherals
            } by {
                assert(prev[k].id == before[k].id);
            }
            assert(topology.organs@.len() == before.len());
            assert(same_but_health(before, topology.organs@));
        }
        i = i + 1;
    }
    proof {
        if old(topology).wf() {
            assert forall|k: int| 0 <= k < topology.organs@.len() implies #[trigger] topology.organs@[k].health
                <= SCALE by {
                assert(before[k].health <= SCALE);
            }
        }
    }
}

/// Different categories of pulses travelling on the bus.
#[derive(Debug, Clone, Copy, PartialEq, Eq, Structural)]
pub enum PulseKind {
    Heartbeat,
    Status,
    Command,
    Ai,
    Sim,
}

/// Which telemetry backend is currently active.
#[derive(Debug, Clone, Copy, PartialEq, Eq, Structural)]
pub enum TelemetryMode {
    Simulated,
    Real,
}

/// Log filtering for bus output.
#[derive(Debug, Clone, Copy, PartialEq, Eq, Structural)]
pub enum LogFilter {
    All,
    CommandsOnly,
    Silent,
}

pub open spec fn pulse_kind_name(k: PulseKind) -> Seq<char> {
    match k {
        PulseKind::Heartbeat => "Heartbeat"@,
        PulseKind::Status => "Status"@,
        PulseKind::Command => "Command"@,
        PulseKind::Ai => "Ai"@,
        PulseKind::Sim => "Sim"@,
    }
}

pub fn pulse_kind_str(k: PulseKind) -> (r: &'static str)
    ensures
        r@ == pulse_kind_name(k),
{
    match k {
        PulseKind::Heartbeat => "Heartbeat",
        PulseKind::Status => "Status",
        PulseKind::Command => "Command",
        PulseKind::Ai => "Ai",
        PulseKind::Sim => "Sim",
    }
}

/// Whether a pulse of `kind` is printed under `filter`.
pub open spec fn shown(filter: LogFilter, kind: PulseKind) -> bool {
    match filter {
        LogFilter::All => true,
        LogFilter::CommandsOnly => kind == PulseKind::Command,
        LogFilter::Silent => false,
    }
}

/// `[BUS][Kind] pulse#N from source => data`
pub open spec fn pulse_line(kind: PulseKind, id: nat, source: Seq<char>, data: Seq<char>) -> Seq<char> {
    "[BUS]["@ + pulse_kind_name(kind) + "] pulse#"@ + digits_of(id) + " from "@ + source + " => "@
        + data
}

/// The views of a sequence of strings.
pub open spec fn texts(v: Seq<String>) -> Seq<Seq<char>> {
    v.map_values(|s: String| s@)
}

/// The bus: the pulse counter, the shared settings that daemons read and
/// write, the lines waiting to be printed, and the working-memory entries
/// waiting to be stored.
pub struct Bus {
    /// Number of pulses emitted so far.
    pub next_id: u64,
    pub log_filter: LogFilter,
    pub sim_level: SimLevel,
    /// Last computed awareness, in units.
    pub awareness_score: u32,
    pub telemetry_mode: TelemetryMode,
    /// Lines waiting to be printed, oldest first.
    pub outbox: Vec<String>,
    /// Working-memory entries (key, text) waiting to be stored.
    pub notes: Vec<(String, String)>,
}

/// The pulse counter after one more pulse (it stops at the top).
pub open spec fn next_pulse(n: u64) -> u64 {
    if n < u64::MAX {
        (n + 1) as u64
    } else {
        n
    }
}

impl Bus {
    /// Number of pulses emitted so far.
    pub open spec fn pulses(&self) -> u64 {
        self.next_id
    }

    /// The lines that wait to be printed, oldest first.
    pub open spec fn lines(&self) -> Seq<Seq<char>> {
        texts(self.outbox@)
    }

    /// The working-memory entries (key, text) that wait to be stored.
    pub open spec fn notes(&self) -> Seq<(Seq<char>, Seq<char>)> {
        self.notes@.map_values(|e: (String, String)| (e.0@, e.1@))
    }

    /// `self` and `other` agree on everything a daemon may leave alone.
    pub open spec fn same_settings(&self, other: &Bus) -> bool {
        &&& self.log_filter == other.log_filter
        &&& self.sim_level == other.sim_level
        &&& self.awareness_score == other.awareness_score
        &&& self.telemetry_mode == other.telemetry_mode
    }

    /// `after` is `self` after one more pulse of `kind` from `source` carrying
    /// `data` (the settings are not compared).
    pub open spec fn emitted(&self, after: &Bus, kind: PulseKind, source: Seq<char>, data: Seq<char>) -> bool {
        &&& after.pulses() == next_pulse(self.pulses())
        &&& after.lines() == if shown(self.log_filter, kind) {
            self.lines().push(pulse_line(kind, after.pulses() as nat, source, data))
        } else {
            self.lines()
        }
        &&& after.notes() == self.notes()
    }

    pub fn new() -> (r: Self)
        ensures
            r.pulses() == 0,
            r.log_filter == LogFilter::CommandsOnly,
            r.sim_level == SimLevel::Low,
            r.awareness_score == SCALE,
            r.telemetry_mode == TelemetryMode::Simulated,
            r.lines() == Seq::<Seq<char>>::empty(),
            r.notes() == Seq::<(Seq<char>, Seq<char>)>::empty(),
    {
        let r = Bus {
            next_id: 0,
            log_filter: LogFilter::CommandsOnly,
            sim_level: SimLevel::Low,
            awareness_score: SCALE,
            telemetry_mode: TelemetryMode::Simulated,
            outbox: Vec::new(),
            notes: Vec::new(),
        };
        assert(r.lines() =~= Seq::<Seq<char>>::empty());
        assert(r.notes() =~= Seq::<(Seq<char>, Seq<char>)>::empty());
        r
    }

    /// Publish one pulse: the counter advances, and the pulse's line is
    /// queued for printing when the log filter lets it through.
    pub fn emit(&mut self, kind: PulseKind, source: &str, data: &str)
        ensures
            old(self).emitted(final(self), kind, source@, data@),
            final(self).same_settings(old(self)),
    {
        if self.next_id < u64::MAX {
            self.next_id = self.next_id + 1;
        }
        let show = match self.log_filter {
            LogFilter::All => true,
            LogFilter::CommandsOnly => kind == PulseKind::Command,
            LogFilter::Silent => false,
        };
        if show {
            let mut line = String::from_str("[BUS][");
            line.append(pulse_kind_str(kind));
            line.append("] pulse#");
            let id = format_u64(self.next_id);
            line.append(id.as_str());
            line.append(" from ");
            line.append(source);
            line.append(" => ");
            line.append(data);
            let ghost before = self.outbox@;
            self.outbox.push(line);
            proof {
                assert(texts(self.outbox@) =~= texts(before).push(line@));
            }
        }
    }

    /// Queue a working-memory entry (global scope, text value).
    pub fn note(&mut self, key: &str, value: &str)
        ensures
            final(self).notes() == old(self).notes().push((key@, value@)),
            final(self).lines() == old(self).lines(),
            final(self).pulses() == old(self).pulses(),
            final(self).same_settings(old(self)),
    {
        let ghost before = self.notes@;
        self.notes.push((String::from_str(key), String::from_str(value)));
        proof {
            assert(self.notes() =~= old(self).notes().push((key@, value@)));
        }
    }

    /// Hand over the queued lines, leaving none.
    pub fn take_lines(&mut self) -> (r: Vec<String>)
        ensures
            texts(r@) == old(self).lines(),
            final(self).lines() == Seq::<Seq<char>>::empty(),
            final(self).notes() == old(self).notes(),
            final(self).pulses() == old(self).pulses(),
            final(self).same_settings(old(self)),
    {
        let mut out: Vec<String> = Vec::new();
        std::mem::swap(&mut out, &mut self.outbox);
        assert(self.lines() =~= Seq::<Seq<char>>::empty());
        out
    }

    /// Hand over the queued working-memory entries, leaving none.
    pub fn take_notes(&mut self) -> (r: Vec<(String, String)>)
        ensures
            r@.map_values(|e: (String, String)| (e.0@, e.1@)) == old(self).notes(),
            final(self).notes() == Seq::<(Seq<char>, Seq<char>)>::empty(),
            final(self).lines() == old(self).lines(),
            final(self).pulses() == old(self).pulses(),
            final(self).same_settings(old(self)),
    {
        let mut out: Vec<(String, String)> = Vec::new();
        std::mem::swap(&mut out, &mut self.notes);
        assert(self.notes() =~= Seq::<(Seq<char>, Seq<char>)>::empty());
        out
    }
}

/// Whether a daemon last run at `last` with period `interval` is due at `now`
/// (all in milliseconds).
pub open spec fn due(last: u64, now: u64, interval: u64) -> bool {
    now >= last && now - last >= interval
}

pub fn is_due(last: u64, now: u64, interval: u64) -> (r: bool)
    ensures
        r == due(last, now, interval),
{
    now >= last && now - last >= interval
}

/// A counter after one more step (it stops at the top).
pub open spec fn bump(n: u64) -> u64 {
    if n < u64::MAX {
        (n + 1) as u64
    } else {
        n
    }
}

fn bump_exec(n: u64) -> (r: u64)
    ensures
        r == bump(n),
{
    if n < u64::MAX {
        n + 1
    } else {
        n
    }
}

/// A daemon that publishes a heartbeat every `interval` milliseconds.
pub struct HeartbeatDaemon {
    last_run: u64,
    interval: u64,
    counter: u64,
}

impl HeartbeatDaemon {
    pub closed spec fn last_run(&self) -> u64 {
        self.last_run
    }

    pub closed spec fn interval(&self) -> u64 {
        self.interval
    }

    pub closed spec fn counter(&self) -> u64 {
        self.counter
    }

    /// A heartbeat with the given period, started at time `0`.
    pub fn new(interval: u64) -> (r: Self)
        ensures
            r.last_run() == 0,
            r.interval() == interval,
            r.counter() == 0,
    {
        HeartbeatDaemon { last_run: 0, interval, counter: 0 }
    }

    pub fn name(&self) -> (r: &'static str)
        ensures
            r@ == "heartbeat"@,
    {
        "heartbeat"
    }

    /// When due, counts a beat, records the time and publishes `beat #N`.
    pub fn tick(&mut self, now: u64, bus: &mut Bus)
        ensures
            final(self).interval() == old(self).interval(),
            final(bus).same_settings(old(bus)),
            due(old(self).last_run(), now, old(self).interval()) ==> {
                &&& final(self).counter() == bump(old(self).counter())
                &&& final(self).last_run() == now
                &&& old(bus).emitted(
                    final(bus),
                    PulseKind::Heartbeat,
                    "heartbeat"@,
                    "beat #"@ + digits_of(final(self).counter() as nat),
                )
            },
            !due(old(self).last_run(), now, old(self).interval()) ==> {
                &&& final(self).counter() == old(self).counter()
                &&& final(self).last_run() == old(self).last_run()
                &&& *final(bus) == *old(bus)
            },
    {
        if is_due(self.last_run, now, self.interval) {
            self.counter = bump_exec(self.counter);
            self.last_run = now;
            let mut msg = String::from_str("beat #");
            let n = format_u64(self.counter);
            msg.append(n.as_str());
            bus.emit(PulseKind::Heartbeat, self.name(), msg.as_str());
        }
    }
}

/// `prefix :: <topology brief> :: health H (label) :: awareness A (label)`
pub open spec fn status_report(prefix: Seq<char>, t: SystemTopology, awareness: nat) -> Seq<char> {
    let h = min_health(t.organs@);
    prefix + " :: "@ + topology_brief(t) + " :: health "@ + fixed_text(h, 2) + " ("@ + health_label(h)
        + ") :: awareness "@ + fixed_text(awareness, 2) + " ("@ + awareness_label(awareness) + ")"@
}

pub fn format_status_report(prefix: &str, topo: &SystemTopology, awareness: u32) -> (r: String)
    ensures
        r@ == status_report(prefix@, *topo, awareness as nat),
{
    let brief = format_topology_brief(topo);
    let overall = compute_overall_health(topo);
    let mut out = String::from_str(prefix);
    out.append(" :: ");
    out.append(brief.as_str());
    out.append(" :: health ");
    let h = format_fixed(overall as u64, 2);
    out.append(h.as_str());
    out.append(" (");
    out.append(classify_health(overall));
    out.append(") :: awareness ");
    let a = format_fixed(awareness as u64, 2);
    out.append(a.as_str());
    out.append(" (");
    out.append(describe_awareness(awareness));
    out.append(")");
    out
}

/// `status tick #N`
pub open spec fn status_prefix(n: nat) -> Seq<char> {
    "status tick #"@ + digits_of(n)
}

/// A daemon that pulls telemetry, blends it into the core organs' health,
/// recomputes awareness and publishes a status line.
pub struct StatusDaemon {
    last_run: u64,
    interval: u64,
    counter: u64,
    telemetry: TelemetrySource,
}

impl StatusDaemon {
    pub closed spec fn last_run(&self) -> u64 {
        self.last_run
    }

    pub closed spec fn interval(&self) -> u64 {
        self.interval
    }

    pub closed spec fn counter(&self) -> u64 {
        self.counter
    }

    /// The telemetry provider it reads from.
    pub closed spec fn source(&self) -> TelemetrySource {
        self.telemetry
    }

    pub fn new(interval: u64, telemetry: TelemetrySource) -> (r: Self)
        ensures
            r.last_run() == 0,
            r.interval() == interval,
            r.counter() == 0,
            r.source() == telemetry,
    {
        StatusDaemon { last_run: 0, interval, counter: 0, telemetry }
    }

    pub fn name(&self) -> (r: &'static str)
        ensures
            r@ == "status"@,
    {
        "status"
    }

    /// When due, counts a tick, records the time and reads one snapshot from
    /// the telemetry provider; otherwise does nothing and returns `None`.
    pub fn poll(&mut self, now: u64) -> (r: Option<TelemetrySnapshot>)
        ensures
            final(self).interval() == old(self).interval(),
            r is Some <==> due(old(self).last_run(), now, old(self).interval()),
            r is Some ==> final(self).counter() == bump(old(self).counter()) && final(self).last_run()
                == now,
            r is None ==> final(self).counter() == old(self).counter() && final(self).last_run()
                == old(self).last_run() && final(self).source() == old(self).source(),
            r matches Some(s) ==> reading(old(self).source(), final(self).source(), (s.cpu, s.mem, s.io)),
    {
        if !is_due(self.last_run, now, self.interval) {
            return None;
        }
        self.counter = bump_exec(self.counter);
        self.last_run = now;
        let (cpu, mem, io) = self.telemetry.read_all();
        Some(TelemetrySnapshot { cpu, mem, io })
    }

    /// Blends the snapshot into the topology, stores the new awareness on the
    /// bus, and records and publishes the status line.
    pub fn apply(&self, snap: &TelemetrySnapshot, bus: &mut Bus, topo: &mut SystemTopology)
        ensures
            final(topo).nodes == old(topo).nodes,
            old(topo).wf() ==> final(topo).wf(),
            same_but_health(old(topo).organs@, final(topo).organs@),
            forall|i: int|
                0 <= i < old(topo).organs@.len() ==> #[trigger] final(topo).organs@[i].health
                    == blended_health(
                    old(topo).organs@[i],
                    cortex_target(snap.cpu),
                    memory_target(snap.mem),
                    iobridge_target(snap.io),
                ),
            final(bus).awareness_score == awareness_of(final(topo).organs@),
            final(bus).log_filter == old(bus).log_filter,
            final(bus).sim_level == old(bus).sim_level,
            final(bus).telemetry_mode == old(bus).telemetry_mode,
            ({
                let line = status_report(
                    status_prefix(self.counter() as nat),
                    *final(topo),
                    awareness_of(final(topo).organs@),
                );
                &&& final(bus).notes() == old(bus).notes().push(("kernel.last_status"@, line))
                &&& final(bus).pulses() == next_pulse(old(bus).pulses())
                &&& final(bus).lines() == if shown(old(bus).log_filter, PulseKind::Status) {
                    old(bus).lines().push(
                        pulse_line(PulseKind::Status, final(bus).pulses() as nat, "status"@, line),
                    )
                } else {
                    old(bus).lines()
                }
            }),
    {
        apply_telemetry_to_topology(topo, &snap.cpu, &snap.mem, &snap.io);
        let awareness = compute_awareness(topo);
        bus.awareness_score = awareness;
        let mut prefix = String::from_str("status tick #");
        let n = format_u64(self.counter);
        prefix.append(n.as_str());
        let msg = format_status_report(prefix.as_str(), topo, awareness);
        bus.note("kernel.last_status", msg.as_str());
        bus.emit(PulseKind::Status, self.name(), msg.as_str());
    }

    /// Publishes that the topology could not be locked for this tick.
    pub fn lock_failed(&self, bus: &mut Bus)
        ensures
            old(bus).emitted(
                final(bus),
                PulseKind::Status,
                "status"@,
                "status tick: failed to lock topology"@,
            ),
            final(bus).same_settings(old(bus)),
    {
        bus.emit(PulseKind::Status, self.name(), "status tick: failed to lock topology");
    }
}

pub open spec fn policy_for(a: nat) -> Seq<char> {
    if a >= 85_000 {
        "policy=push_capacity"@
    } else if a >= 60_000 {
        "policy=maintain_load"@
    } else if a >= 35_000 {
        "policy=reduce_load"@
    } else if a > 0 {
        "policy=protect_core(sim_off)"@
    } else {
        "policy=recover_offline"@
    }
}

/// The awareness the AI daemon acts on: computed from the topology when it
/// could be read, otherwise the last score on the bus.
pub open spec fn observed_awareness(topo: Option<&SystemTopology>, bus: Bus) -> nat {
    match topo {
        Some(t) => awareness_of(t.organs@),
        None => bus.awareness_score as nat,
    }
}

/// `cortex cycle #N :: awareness A (label) :: policy`
pub open spec fn cortex_line(n: nat, a: nat) -> Seq<char> {
    "cortex cycle #"@ + digits_of(n) + " :: awareness "@ + fixed_text(a, 2) + " ("@ + awareness_label(a)
        + ") :: "@ + policy_for(a)
}

/// A daemon that derives a coarse policy from awareness; in the critical
/// band it switches the simulation off.
pub struct AiDaemon {
    last_run: u64,
    interval: u64,
    cycle: u64,
}

impl AiDaemon {
    pub closed spec fn last_run(&self) -> u64 {
        self.last_run
    }

    pub closed spec fn interval(&self) -> u64 {
        self.interval
    }

    pub closed spec fn cycle(&self) -> u64 {
        self.cycle
    }

    pub fn new(interval: u64) -> (r: Self)
        ensures
            r.last_run() == 0,
            r.interval() == interval,
            r.cycle() == 0,
    {
        AiDaemon { last_run: 0, interval, cycle: 0 }
    }

    pub fn name(&self) -> (r: &'static str)
        ensures
            r@ == "ai-cortex"@,
    {
        "ai-cortex"
    }

    /// When due: counts a cycle, picks the policy for the observed awareness,
    /// forces the simulation off in the critical band, records policy,
    /// awareness and label in working memory, and publishes the cycle line.
    pub fn tick(&mut self, now: u64, bus: &mut Bus, topo: Option<&SystemTopology>)
        ensures
            final(self).interval() == old(self).interval(),
            final(bus).awareness_score == old(bus).awareness_score,
            final(bus).log_filter == old(bus).log_filter,
            final(bus).telemetry_mode == old(bus).telemetry_mode,
            !due(old(self).last_run(), now, old(self).interval()) ==> {
                &&& final(self).cycle() == old(self).cycle()
                &&& final(self).last_run() == old(self).last_run()
                &&& *final(bus) == *old(bus)
            },
            due(old(self).last_run(), now, old(self).interval()) ==> ({
                let a = observed_awareness(topo, *old(bus));
                &&& final(self).cycle() == bump(old(self).cycle())
                &&& final(self).last_run() == now
                &&& final(bus).sim_level == if 0 < a < 35_000 {
                    SimLevel::Off
                } else {
                    old(bus).sim_level
                }
                &&& final(bus).notes() == old(bus).notes().push(("cortex.policy"@, policy_for(a))).push(
                    ("cortex.awareness"@, fixed_text(a, 3)),
                ).push(("cortex.awareness_label"@, awareness_label(a)))
                &&& final(bus).pulses() == next_pulse(old(bus).pulses())
                &&& final(bus).lines() == if shown(old(bus).log_filter, PulseKind::Ai) {
                    old(bus).lines().push(
                        pulse_line(
                            PulseKind::Ai,
                            final(bus).pulses() as nat,
                            "ai-cortex"@,
                            cortex_line(final(self).cycle() as nat, a),
                        ),
                    )
                } else {
                    old(bus).lines()
                }
            }),
    {
        if !is_due(self.last_run, now, self.interval) {
            return;
        }
        self.cycle = bump_exec(self.cycle);
        self.last_run = now;
        let awareness = match topo {
            Some(t) => compute_awareness(t),
            None => bus.awareness_score,
        };
        let label = describe_awareness(awareness);
        let policy = if awareness >= 85_000 {
            "policy=push_capacity"
        } else if awareness >= 60_000 {
            "policy=maintain_load"
        } else if awareness >= 35_000 {
            "policy=reduce_load"
        } else if awareness > 0 {
            bus.sim_level = SimLevel::Off;
            "policy=protect_core(sim_off)"
        } else {
            "policy=recover_offline"
        };
        bus.note("cortex.policy", policy);
        let a3 = format_fixed(awareness as u64, 3);
        bus.note("cortex.awareness", a3.as_str());
        bus.note("cortex.awareness_label", label);
        let mut msg = String::from_str("cortex cycle #");
        let n = format_u64(self.cycle);
        msg.append(n.as_str());
        msg.append(" :: awareness ");
        let a2 = format_fixed(awareness as u64, 2);
        msg.append(a2.as_str());
        msg.append(" (");
        msg.append(label);
        msg.append(") :: ");
        msg.append(policy);
        bus.emit(PulseKind::Ai, self.name(), msg.as_str());
    }
}

/// The signed change a simulation step makes, in units.
pub open spec fn sim_delta(level: SimLevel, tick: u64) -> int {
    match level {
        SimLevel::Low => if tick % 5 == 0 { 2_000 } else { -1_000 },
        SimLevel::High => if tick % 3 == 0 { 3_000 } else { -4_000 },
        SimLevel::Off => 0,
    }
}

pub open spec fn sim_label(level: SimLevel, tick: u64) -> Seq<char> {
    if sim_delta(level, tick) > 0 {
        "recovery"@
    } else {
        "stress"@
    }
}

/// `label tick on Kind: health now H`
pub open spec fn sim_line(label: Seq<char>, kind: OrganKind, h: nat) -> Seq<char> {
    label + " tick on "@ + kind_name(kind) + ": health now "@ + fixed_text(h, 2)
}

/// A daemon that applies synthetic wear and repair, one organ per step in
/// round-robin order, while the simulation is on.
pub struct SimulationDaemon {
    last_run: u64,
    interval: u64,
    tick: u64,
}

impl SimulationDaemon {
    pub closed spec fn last_run(&self) -> u64 {
        self.last_run
    }

    pub closed spec fn interval(&self) -> u64 {
        self.interval
    }

    pub closed spec fn step(&self) -> u64 {
        self.tick
    }

    pub fn new(interval: u64) -> (r: Self)
        ensures
            r.last_run() == 0,
            r.interval() == interval,
            r.step() == 0,
    {
        SimulationDaemon { last_run: 0, interval, tick: 0 }
    }

    pub fn name(&self) -> (r: &'static str)
        ensures
            r@ == "sim"@,
    {
        "sim"
    }

    /// When due: advances the step counter and, unless the simulation is off
    /// or there is no organ, nudges organ `step % count` by the level's delta
    /// (clamped to `[0, 1]`) and publishes the new health.
    pub fn tick(&mut self, now: u64, bus: &mut Bus, topo: &mut SystemTopology)
        ensures
            final(self).interval() == old(self).interval(),
            final(bus).same_settings(old(bus)),
            final(topo).nodes == old(topo).nodes,
            old(topo).wf() ==> final(topo).wf(),
            same_but_health(old(topo).organs@, final(topo).organs@),
            !due(old(self).last_run(), now, old(self).interval()) ==> {
                &&& final(self).step() == old(self).step()
                &&& final(self).last_run() == old(self).last_run()
            },
            due(old(self).last_run(), now, old(self).interval()) ==> {
                &&& final(self).step() == next_tick(old(self).step())
                &&& final(self).last_run() == now
            },
            ({
                let n = old(topo).organs@.len();
                let t = final(self).step();
                let lvl = old(bus).sim_level;
                let acts = due(old(self).last_run(), now, old(self).interval()) && lvl != SimLevel::Off
                    && n > 0;
                &&& !acts ==> final(topo).organs@ == old(topo).organs@ && *final(bus) == *old(bus)
                &&& acts ==> {
                    let idx = (t % (n as u64)) as int;
                    let h = clamp_unit(old(topo).organs@[idx].health + sim_delta(lvl, t));
                    &&& final(topo).organs@[idx].health == h
                    &&& forall|k: int|
                        0 <= k < n && k != idx ==> #[trigger] final(topo).organs@[k].health
                            == old(topo).organs@[k].health
                    &&& old(bus).emitted(
                        final(bus),
                        PulseKind::Sim,
                        "sim"@,
                        sim_line(sim_label(lvl, t), old(topo).organs@[idx].kind, h),
                    )
                }
            }),
    {
        if !is_due(self.last_run, now, self.interval) {
            return;
        }
        self.last_run = now;
        self.tick = if self.tick == u64::MAX {
            0
        } else {
            self.tick + 1
        };
        if bus.sim_level == SimLevel::Off {
            return;
        }
        let n = topo.organs.len();
        if n == 0 {
            return;
        }
        let idx = (self.tick % (n as u64)) as usize;
        let (delta, label): (i64, &str) = match bus.sim_level {
            SimLevel::Low => if self.tick % 5 == 0 {
                (2_000, "recovery")
            } else {
                (-1_000, "stress")
            },
            SimLevel::High => if self.tick % 3 == 0 {
                (3_000, "recovery")
            } else {
                (-4_000, "stress")
            },
            SimLevel::Off => (0, "stress"),
        };
        let h = clamp_health(topo.organs[idx].health as i64 + delta);
        let ghost prev = topo.organs@;
        topo.organs[idx].health = h;
        proof {
            assert forall|k: int| 0 <= k < prev.len() implies {
                &&& #[trigger] topo.organs@[k].id == prev[k].id
                &&& topo.organs@[k].node == prev[k].node
                &&& topo.organs@[k].kind == prev[k].kind
                &&& topo.organs@[k].caps == prev[k].caps
                &&& topo.organs@[k].peripherals == prev[k].peripherals
            } by {}
            assert(same_but_health(prev, topo.organs@));
            if old(topo).wf() {
                assert forall|k: int| 0 <= k < topo.organs@.len() implies #[trigger] topo.organs@[k].health
                    <= SCALE by {
                    if k != idx {
                        assert(prev[k].health <= SCALE);
                    }
                }
            }
        }
        let mut msg = String::from_str(label);
        msg.append(" tick on ");
        msg.append(organ_kind_str(topo.organs[idx].kind));
        msg.append(": health now ");
        let hs = format_fixed(h as u64, 2);
        msg.append(hs.as_str());
        bus.emit(PulseKind::Sim, self.name(), msg.as_str());
    }
}

} // verus!
