//! Telemetry: the three metric groups, the health that each group implies
//! for its organ, and two providers (a deterministic simulation and one that
//! reads the host's memory figures).
//!
//! Ratios, loads, temperatures (in °C) and latencies (in ms) are fixed-point
//! values in units of `1 / SCALE`.

use vstd::prelude::*;
use crate::fixed::SCALE;

verus! {

/// CPU / GPU related metrics.
#[derive(Debug, Clone, Copy, PartialEq, Eq, Structural)]
pub struct CpuGpuMetrics {
    pub cpu_load: u32,
    pub cpu_temp_c: u32,
    pub throttling_events: u32,
    pub gpu_load: u32,
    pub gpu_mem_util: u32,
}

/// Memory / storage related metrics.
#[derive(Debug, Clone, Copy, PartialEq, Eq, Structural)]
pub struct MemoryMetrics {
    pub ram_used_ratio: u32,
    pub swap_used_ratio: u32,
    pub major_page_faults: u32,
    pub disk_latency_ms: u32,
}

/// IO and network related metrics.
#[derive(Debug, Clone, Copy, PartialEq, Eq, Structural)]
pub struct IoMetrics {
    pub net_packet_loss: u32,
    pub net_latency_ms: u32,
    pub io_queue_depth: u32,
    pub io_error_rate: u32,
}

/// Simulation aggressiveness.
#[derive(Debug, Clone, Copy, PartialEq, Eq, Structural)]
pub enum SimLevel {
    Off,
    Low,
    High,
}

/// Cortex target: `1 - min(0.6, max(0, (cpu_temp_c - 60) / 40))`.
pub open spec fn cortex_target(m: CpuGpuMetrics) -> nat {
    if m.cpu_temp_c <= 6_000_000 {
        SCALE as nat
    } else {
        let penalty = (m.cpu_temp_c - 6_000_000) as nat / 40;
        if penalty > 60_000 {
            40_000
        } else {
            (SCALE - penalty) as nat
        }
    }
}

/// Memory target: `1 - min(0.3, max(0, ram_used_ratio - 0.75))`.
pub open spec fn memory_target(m: MemoryMetrics) -> nat {
    if m.ram_used_ratio <= 75_000 {
        SCALE as nat
    } else {
        let penalty = (m.ram_used_ratio - 75_000) as nat;
        if penalty > 30_000 {
            70_000
        } else {
            (SCALE - penalty) as nat
        }
    }
}

/// I/O bridge target: `1 - min(0.4, net_packet_loss * 4)`.
pub open spec fn iobridge_target(m: IoMetrics) -> nat {
    let penalty = 4 * m.net_packet_loss;
    if penalty > 40_000 {
        60_000
    } else {
        (SCALE - penalty) as nat
    }
}

pub fn compute_cortex_health(m: &CpuGpuMetrics) -> (r: u32)
    ensures
        r == cortex_target(*m),
        40_000 <= r <= SCALE,
{
    if m.cpu_temp_c <= 6_000_000 {
        SCALE
    } else {
        let penalty = (m.cpu_temp_c - 6_000_000) / 40;
        if penalty > 60_000 {
            40_000
        } else {
            SCALE - penalty
        }
    }
}

pub fn compute_memory_health(m: &MemoryMetrics) -> (r: u32)
    ensures
        r == memory_target(*m),
        70_000 <= r <= SCALE,
{
    if m.ram_used_ratio <= 75_000 {
        SCALE
    } else {
        let penalty = m.ram_used_ratio - 75_000;
        if penalty > 30_000 {
            70_000
        } else {
            SCALE - penalty
        }
    }
}

pub fn compute_iobridge_health(m: &IoMetrics) -> (r: u32)
    ensures
        r == iobridge_target(*m),
        60_000 <= r <= SCALE,
{
    let penalty: u64 = 4 * m.net_packet_loss as u64;
    if penalty > 40_000 {
        60_000
    } else {
        SCALE - penalty as u32
    }
}

/// General interface for anything that supplies telemetry.
pub trait TelemetryProvider {
    fn read_cpu_gpu_metrics(&mut self) -> CpuGpuMetrics;

    fn read_memory_metrics(&mut self) -> MemoryMetrics;

    fn read_io_metrics(&mut self) -> IoMetrics;
}

/// `base + span * k / 60`: a value that moves through its range as the phase
/// `k` runs from `0` to `59`.
pub open spec fn ramp(base: nat, span: nat, k: nat) -> nat {
    base + span * k / 60
}

pub open spec fn sim_cpu(level: SimLevel, k: nat) -> CpuGpuMetrics {
    match level {
        SimLevel::Off => CpuGpuMetrics {
            cpu_load: 15_000,
            cpu_temp_c: 4_500_000,
            throttling_events: 0,
            gpu_load: 10_000,
            gpu_mem_util: 8_000,
        },
        SimLevel::Low => CpuGpuMetrics {
            cpu_load: ramp(20_000, 25_000, if k >= 30 { (k - 30) as nat } else { (30 - k) as nat }) as u32,
            cpu_temp_c: ramp(4_500_000, 1_000_000, k) as u32,
            throttling_events: 0,
            gpu_load: ramp(15_000, 20_000, k) as u32,
            gpu_mem_util: ramp(10_000, 15_000, (60 - k) as nat) as u32,
        },
        SimLevel::High => CpuGpuMetrics {
            cpu_load: ramp(40_000, 50_000, k) as u32,
            cpu_temp_c: ramp(5_500_000, 2_500_000, k) as u32,
            throttling_events: if ramp(5_500_000, 2_500_000, k) > 7_500_000 { 1 } else { 0 },
            gpu_load: ramp(50_000, 45_000, (60 - k) as nat) as u32,
            gpu_mem_util: ramp(40_000, 40_000, k) as u32,
        },
    }
}

pub open spec fn sim_memory(level: SimLevel, k: nat) -> MemoryMetrics {
    match level {
        SimLevel::Off => MemoryMetrics {
            ram_used_ratio: 30_000,
            swap_used_ratio: 0,
            major_page_faults: 0,
            disk_latency_ms: 200_000,
        },
        SimLevel::Low => MemoryMetrics {
            ram_used_ratio: ramp(35_000, 15_000, k) as u32,
            swap_used_ratio: 0,
            major_page_faults: 50_000,
            disk_latency_ms: ramp(300_000, 200_000, k) as u32,
        },
        SimLevel::High => MemoryMetrics {
            ram_used_ratio: ramp(60_000, 35_000, k) as u32,
            swap_used_ratio: 0,
            major_page_faults: ramp(200_000, 500_000, k) as u32,
            disk_latency_ms: ramp(500_000, 1_200_000, k) as u32,
        },
    }
}

/// The steady I/O figures that both providers report.
pub open spec fn steady_io() -> IoMetrics {
    IoMetrics { net_packet_loss: 0, net_latency_ms: 500_000, io_queue_depth: 10_000, io_error_rate: 0 }
}

/// The tick counter after one more reading (it wraps at the top).
pub open spec fn next_tick(t: u64) -> u64 {
    if t == u64::MAX {
        0
    } else {
        (t + 1) as u64
    }
}

/// Deterministic telemetry that cycles through a phase of sixty readings.
pub struct SimulatedTelemetry {
    tick: u64,
    pub level: SimLevel,
}

fn ramp_exec(base: u32, span: u32, k: u64) -> (r: u32)
    requires
        k <= 60,
        base + span <= u32::MAX,
    ensures
        r == ramp(base as nat, span as nat, k as nat),
{
    assert(span * k / 60 <= span) by (nonlinear_arith)
        requires
            k <= 60,
    ;
    base + (span as u64 * k / 60) as u32
}

impl SimulatedTelemetry {
    pub closed spec fn tick(&self) -> u64 {
        self.tick
    }

    pub closed spec fn level(&self) -> SimLevel {
        self.level
    }

    pub fn new(level: SimLevel) -> (r: Self)
        ensures
            r.level() == level,
            r.tick() == 0,
    {
        Self { tick: 0, level }
    }

    fn next_phase(&mut self) -> (k: u64)
        ensures
            final(self).tick() == next_tick(old(self).tick()),
            final(self).level() == old(self).level(),
            k == final(self).tick() % 60,
    {
        self.tick = if self.tick == u64::MAX {
            0
        } else {
            self.tick + 1
        };
        self.tick % 60
    }

    pub fn read_cpu_gpu(&mut self) -> (r: CpuGpuMetrics)
        ensures
            final(self).tick() == next_tick(old(self).tick()),
            final(self).level() == old(self).level(),
            r == sim_cpu(old(self).level(), (final(self).tick() % 60) as nat),
    {
        let k = self.next_phase();
        match self.level {
            SimLevel::Off => CpuGpuMetrics {
                cpu_load: 15_000,
                cpu_temp_c: 4_500_000,
                throttling_events: 0,
                gpu_load: 10_000,
                gpu_mem_util: 8_000,
            },
            SimLevel::Low => {
                let dist = if k >= 30 {
                    k - 30
                } else {
                    30 - k
                };
                CpuGpuMetrics {
                    cpu_load: ramp_exec(20_000, 25_000, dist),
                    cpu_temp_c: ramp_exec(4_500_000, 1_000_000, k),
                    throttling_events: 0,
                    gpu_load: ramp_exec(15_000, 20_000, k),
                    gpu_mem_util: ramp_exec(10_000, 15_000, 60 - k),
                }
            },
            SimLevel::High => {
                let cpu_temp = ramp_exec(5_500_000, 2_500_000, k);
                CpuGpuMetrics {
                    cpu_load: ramp_exec(40_000, 50_000, k),
                    cpu_temp_c: cpu_temp,
                    throttling_events: if cpu_temp > 7_500_000 {
                        1
                    } else {
                        0
                    },
                    gpu_load: ramp_exec(50_000, 45_000, 60 - k),
                    gpu_mem_util: ramp_exec(40_000, 40_000, k),
                }
            },
        }
    }

    pub fn read_memory(&mut self) -> (r: MemoryMetrics)
        ensures
            final(self).tick() == next_tick(old(self).tick()),
            final(self).level() == old(self).level(),
            r == sim_memory(old(self).level(), (final(self).tick() % 60) as nat),
    {
        let k = self.next_phase();
        match self.level {
            SimLevel::Off => MemoryMetrics {
                ram_used_ratio: 30_000,
                swap_used_ratio: 0,
                major_page_faults: 0,
                disk_latency_ms: 200_000,
            },
            SimLevel::Low => MemoryMetrics {
                ram_used_ratio: ramp_exec(35_000, 15_000, k),
                swap_used_ratio: 0,
                major_page_faults: 50_000,
                disk_latency_ms: ramp_exec(300_000, 200_000, k),
            },
            SimLevel::High => MemoryMetrics {
                ram_used_ratio: ramp_exec(60_000, 35_000, k),
                swap_used_ratio: 0,
                major_page_faults: ramp_exec(200_000, 500_000, k),
                disk_latency_ms: ramp_exec(500_000, 1_200_000, k),
            },
        }
    }
}

pub fn steady_io_metrics() -> (r: IoMetrics)
    ensures
        r == steady_io(),
{
    IoMetrics { net_packet_loss: 0, net_latency_ms: 500_000, io_queue_depth: 10_000, io_error_rate: 0 }
}

impl TelemetryProvider for SimulatedTelemetry {
    fn read_cpu_gpu_metrics(&mut self) -> (r: CpuGpuMetrics)
        ensures
            final(self).tick() == next_tick(old(self).tick()),
            final(self).level() == old(self).level(),
            r == sim_cpu(old(self).level(), (final(self).tick() % 60) as nat),
    {
        self.read_cpu_gpu()
    }

    fn read_memory_metrics(&mut self) -> (r: MemoryMetrics)
        ensures
            final(self).tick() == next_tick(old(self).tick()),
            final(self).level() == old(self).level(),
            r == sim_memory(old(self).level(), (final(self).tick() % 60) as nat),
    {
        self.read_memory()
    }

    fn read_io_metrics(&mut self) -> (r: IoMetrics)
        ensures
            r == steady_io(),
            *final(self) == *old(self),
    {
        steady_io_metrics()
    }
}

/// The host's system-information handle from `sysinfo`; its figures are
/// read through the declarations below.
#[verifier::external_type_specification]
#[verifier::external_body]
pub struct ExSystem(sysinfo::System);

/// Relies on `sysinfo::System::new_all`: builds a handle with everything
/// loaded. What it holds depends on the host, so nothing is promised.
pub assume_specification[ sysinfo::System::new_all ]() -> sysinfo::System;

/// Relies on `sysinfo::System::refresh_memory`: reloads the memory figures.
pub assume_specification[ sysinfo::System::refresh_memory ](s: &mut sysinfo::System);

/// Relies on `sysinfo::System::total_memory`: the RAM size in bytes, as
/// the host reports it.
pub assume_specification[ sysinfo::System::total_memory ](s: &sysinfo::System) -> u64;

/// Relies on `sysinfo::System::available_memory`: the RAM available for
/// (re)use, in bytes. It reads a stored figure, which the host may report
/// above the total.
pub assume_specification[ sysinfo::System::available_memory ](s: &sysinfo::System) -> u64;

/// Relies on `sysinfo::System::total_swap`: the swap size in bytes.
pub assume_specification[ sysinfo::System::total_swap ](s: &sysinfo::System) -> u64;

/// Relies on `sysinfo::System::free_swap`: the unused swap, in bytes. On
/// Linux and macOS it reads a stored figure, which the host may report
/// above the total; on Windows sysinfo computes it as total minus used
/// without a check, so the call is panic-free there only while the host
/// reports used swap within the total.
pub assume_specification[ sysinfo::System::free_swap ](s: &sysinfo::System) -> u64;

/// `used / total` in units, capped at `1.0`; `0` when `total` is `0`.
pub open spec fn usage_ratio(used: nat, total: nat) -> nat {
    let q: nat = used * (SCALE as nat) / total;
    if total == 0 {
        0
    } else if q > SCALE {
        SCALE as nat
    } else {
        q
    }
}

pub fn compute_usage_ratio(used: u64, total: u64) -> (r: u32)
    ensures
        r == usage_ratio(used as nat, total as nat),
        r <= SCALE,
{
    if total == 0 {
        0
    } else {
        assert(used * 100_000 <= u64::MAX * 100_000) by (nonlinear_arith);
        let q: u128 = used as u128 * SCALE as u128 / total as u128;
        if q > SCALE as u128 {
            SCALE
        } else {
            q as u32
        }
    }
}

/// Bytes in use out of `total` when `free` of them are free; `0` when the
/// host reports more free than total.
pub open spec fn used_of(total: nat, free: nat) -> nat {
    if free <= total {
        (total - free) as nat
    } else {
        0
    }
}

pub fn compute_used(total: u64, free: u64) -> (r: u64)
    ensures
        r == used_of(total as nat, free as nat),
{
    if free <= total {
        total - free
    } else {
        0
    }
}

/// The memory group built from the host's byte counts; the fields that the
/// host does not report hold steady placeholder values.
pub open spec fn host_memory(used: nat, total: nat, swap_used: nat, swap_total: nat) -> MemoryMetrics {
    MemoryMetrics {
        ram_used_ratio: usage_ratio(used, total) as u32,
        swap_used_ratio: usage_ratio(swap_used, swap_total) as u32,
        major_page_faults: 0,
        disk_latency_ms: 500_000,
    }
}

pub fn host_memory_metrics(used: u64, total: u64, swap_used: u64, swap_total: u64) -> (r: MemoryMetrics)
    ensures
        r == host_memory(used as nat, total as nat, swap_used as nat, swap_total as nat),
{
    MemoryMetrics {
        ram_used_ratio: compute_usage_ratio(used, total),
        swap_used_ratio: compute_usage_ratio(swap_used, swap_total),
        major_page_faults: 0,
        disk_latency_ms: 500_000,
    }
}

/// The fixed CPU figures of the host provider, which reads no CPU sensor.
pub open spec fn host_cpu() -> CpuGpuMetrics {
    CpuGpuMetrics {
        cpu_load: 30_000,
        cpu_temp_c: 5_000_000,
        throttling_events: 0,
        gpu_load: 0,
        gpu_mem_util: 0,
    }
}

/// Telemetry backed by the host: real memory and swap figures, steady
/// placeholder values for the rest.
pub struct RealTelemetry {
    sys: sysinfo::System,
    level: SimLevel,
}

impl RealTelemetry {
    pub closed spec fn level(&self) -> SimLevel {
        self.level
    }

    pub fn new(level: SimLevel) -> (r: Self)
        ensures
            r.level() == level,
    {
        RealTelemetry { sys: sysinfo::System::new_all(), level }
    }

    pub fn read_cpu_gpu(&mut self) -> (r: CpuGpuMetrics)
        ensures
            r == host_cpu(),
            *final(self) == *old(self),
    {
        CpuGpuMetrics {
            cpu_load: 30_000,
            cpu_temp_c: 5_000_000,
            throttling_events: 0,
            gpu_load: 0,
            gpu_mem_util: 0,
        }
    }

    /// Reads the memory group from the host's current byte counts, whatever
    /// they are; the ratios are within `[0, 1]`.
    pub fn read_memory(&mut self) -> (r: MemoryMetrics)
        ensures
            final(self).level() == old(self).level(),
            exists|used: u64, total: u64, swap_used: u64, swap_total: u64|
                r == host_memory(used as nat, total as nat, swap_used as nat, swap_total as nat),
            r.ram_used_ratio <= SCALE,
            r.swap_used_ratio <= SCALE,
    {
        self.sys.refresh_memory();
        let total = self.sys.total_memory();
        let used = compute_used(total, self.sys.available_memory());
        let swap_total = self.sys.total_swap();
        let swap_used = compute_used(swap_total, self.sys.free_swap());
        let r = host_memory_metrics(used, total, swap_used, swap_total);
        assert(r == host_memory(used as nat, total as nat, swap_used as nat, swap_total as nat));
        r
    }
}

impl TelemetryProvider for RealTelemetry {
    fn read_cpu_gpu_metrics(&mut self) -> (r: CpuGpuMetrics)
        ensures
            r == host_cpu(),
            *final(self) == *old(self),
    {
        self.read_cpu_gpu()
    }

    fn read_memory_metrics(&mut self) -> (r: MemoryMetrics)
        ensures
            final(self).level() == old(self).level(),
            exists|used: u64, total: u64, swap_used: u64, swap_total: u64|
                r == host_memory(used as nat, total as nat, swap_used as nat, swap_total as nat),
            r.ram_used_ratio <= SCALE,
            r.swap_used_ratio <= SCALE,
    {
        self.read_memory()
    }

    fn read_io_metrics(&mut self) -> (r: IoMetrics)
        ensures
            r == steady_io(),
            *final(self) == *old(self),
    {
        steady_io_metrics()
    }
}

/// The provider that the status daemon reads from: one of the two kinds.
pub enum TelemetrySource {
    Simulated(SimulatedTelemetry),
    Real(RealTelemetry),
}

/// What one full reading (CPU group, then memory group, then I/O group)
/// returns and how it leaves the provider: the simulation advances two
/// phases; the host provider reports its fixed CPU figures and memory
/// ratios within `[0, 1]`.
pub open spec fn reading(
    before: TelemetrySource,
    after: TelemetrySource,
    r: (CpuGpuMetrics, MemoryMetrics, IoMetrics),
) -> bool {
    &&& r.2 == steady_io()
    &&& match before {
        TelemetrySource::Simulated(t) => {
            let t1 = next_tick(t.tick());
            let t2 = next_tick(t1);
            &&& after is Simulated
            &&& after->Simulated_0.tick() == t2
            &&& after->Simulated_0.level() == t.level()
            &&& r.0 == sim_cpu(t.level(), (t1 % 60) as nat)
            &&& r.1 == sim_memory(t.level(), (t2 % 60) as nat)
        },
        TelemetrySource::Real(_) => {
            &&& after is Real
            &&& r.0 == host_cpu()
            &&& r.1.ram_used_ratio <= SCALE
            &&& r.1.swap_used_ratio <= SCALE
        },
    }
}

impl TelemetrySource {
    /// Reads the three metric groups in order.
    pub fn read_all(&mut self) -> (r: (CpuGpuMetrics, MemoryMetrics, IoMetrics))
        ensures
            reading(*old(self), *final(self), r),
    {
        match self {
            TelemetrySource::Simulated(t) => {
                let cpu = t.read_cpu_gpu();
                let mem = t.read_memory();
                (cpu, mem, steady_io_metrics())
            },
            TelemetrySource::Real(t) => {
                let cpu = t.read_cpu_gpu();
                let mem = t.read_memory();
                (cpu, mem, steady_io_metrics())
            },
        }
    }
}

impl TelemetryProvider for TelemetrySource {
    fn read_cpu_gpu_metrics(&mut self) -> (r: CpuGpuMetrics)
        ensures
            match *old(self) {
                TelemetrySource::Simulated(t) => (*final(self)) is Simulated && (*final(self))->Simulated_0.tick()
                    == next_tick(t.tick()) && (*final(self))->Simulated_0.level() == t.level() && r == sim_cpu(
                    t.level(),
                    (next_tick(t.tick()) % 60) as nat,
                ),
                TelemetrySource::Real(_) => *final(self) == *old(self) && r == host_cpu(),
            },
    {
        match self {
            TelemetrySource::Simulated(t) => t.read_cpu_gpu(),
            TelemetrySource::Real(t) => t.read_cpu_gpu(),
        }
    }

    fn read_memory_metrics(&mut self) -> (r: MemoryMetrics)
        ensures
            match *old(self) {
                TelemetrySource::Simulated(t) => (*final(self)) is Simulated && (*final(self))->Simulated_0.tick()
                    == next_tick(t.tick()) && (*final(self))->Simulated_0.level() == t.level() && r
                    == sim_memory(t.level(), (next_tick(t.tick()) % 60) as nat),
                TelemetrySource::Real(_) => (*final(self)) is Real && r.ram_used_ratio <= SCALE
                    && r.swap_used_ratio <= SCALE,
            },
    {
        match self {
            TelemetrySource::Simulated(t) => t.read_memory(),
            TelemetrySource::Real(t) => t.read_memory(),
        }
    }

    fn read_io_metrics(&mut self) -> (r: IoMetrics)
        ensures
            r == steady_io(),
            *final(self) == *old(self),
    {
        steady_io_metrics()
    }
}

} // verus!
