//! The status listener's read path: which endpoint a request names, and the
//! bodies of the JSON endpoints. Serving the socket is left to the caller.

use vstd::prelude::*;
use crate::fixed::{digits_of, fixed_text, format_fixed, format_u64};
use crate::organism::{SystemTopology, awareness_of, awareness_label, compute_awareness, describe_awareness};
use crate::kernel::{TelemetrySnapshot, classify_health, compute_overall_health, health_label, min_health};
use crate::text::text_eq;

verus! {

/// The listener's configuration: the address it binds.
pub struct HttpServer {
    addr: String,
}

impl HttpServer {
    pub closed spec fn addr_view(&self) -> Seq<char> {
        self.addr@
    }

    pub fn new(addr: &str) -> (r: Self)
        ensures
            r.addr_view() == addr@,
    {
        HttpServer { addr: String::from_str(addr) }
    }

    pub fn addr(&self) -> (r: &str)
        ensures
            r@ == self.addr_view(),
    {
        self.addr.as_str()
    }
}

/// The endpoints of the listener.
#[derive(Debug, Clone, Copy, PartialEq, Eq, Structural)]
pub enum Endpoint {
    Home,
    Status,
    Metrics,
    Mem,
    NotFound,
}

pub open spec fn endpoint_of(url: Seq<char>) -> Endpoint {
    if url == "/"@ {
        Endpoint::Home
    } else if url == "/status"@ {
        Endpoint::Status
    } else if url == "/metrics"@ {
        Endpoint::Metrics
    } else if url == "/mem"@ {
        Endpoint::Mem
    } else {
        Endpoint::NotFound
    }
}

pub fn route(url: &str) -> (r: Endpoint)
    ensures
        r == endpoint_of(url@),
{
    if text_eq(url, "/") {
        Endpoint::Home
    } else if text_eq(url, "/status") {
        Endpoint::Status
    } else if text_eq(url, "/metrics") {
        Endpoint::Metrics
    } else if text_eq(url, "/mem") {
        Endpoint::Mem
    } else {
        Endpoint::NotFound
    }
}

/// What a request shows: overall health and awareness, read together
/// under one hold of the topology.
#[derive(Debug, Clone, Copy, PartialEq, Eq, Structural)]
pub struct StatusView {
    pub health: u32,
    pub awareness: u32,
}

/// Reads health and awareness from one state of the topology.
pub fn status_view(topo: &SystemTopology) -> (r: StatusView)
    ensures
        r.health == min_health(topo.organs@),
        r.awareness == awareness_of(topo.organs@),
{
    StatusView { health: compute_overall_health(topo), awareness: compute_awareness(topo) }
}

/// The reply when a guard cannot be taken (`what` names the state that
/// could not be read): status 500 and an error body.
pub fn lock_error_body(what: &str) -> (r: (u16, String))
    ensures
        r.0 == 500,
        r.1@ == "{\"error\":\"failed to lock "@ + what@ + "\"}"@,
{
    let mut out = String::from_str("{\"error\":\"failed to lock ");
    out.append(what);
    out.append("\"}");
    (500, out)
}

/// `{"health":{"score":H,"label":"L"},"awareness":{"score":A,"label":"L"}}`
pub open spec fn status_json(v: StatusView) -> Seq<char> {
    "{\"health\":{\"score\":"@ + fixed_text(v.health as nat, 3) + ",\"label\":\""@ + health_label(
        v.health as nat,
    ) + "\"},\"awareness\":{\"score\":"@ + fixed_text(v.awareness as nat, 3) + ",\"label\":\""@
        + awareness_label(v.awareness as nat) + "\"}}"@
}

pub fn status_body(v: &StatusView) -> (r: String)
    ensures
        r@ == status_json(*v),
{
    let mut out = String::from_str("{\"health\":{\"score\":");
    let h = format_fixed(v.health as u64, 3);
    out.append(h.as_str());
    out.append(",\"label\":\"");
    out.append(classify_health(v.health));
    out.append("\"},\"awareness\":{\"score\":");
    let a = format_fixed(v.awareness as u64, 3);
    out.append(a.as_str());
    out.append(",\"label\":\"");
    out.append(describe_awareness(v.awareness));
    out.append("\"}}");
    out
}

/// `"name":value` with the given decimals.
pub open spec fn json_field(name: Seq<char>, v: nat, places: nat) -> Seq<char> {
    "\""@ + name + "\":"@ + fixed_text(v, places)
}

fn append_field(out: &mut String, name: &str, v: u32, places: u32)
    requires
        places <= 5,
    ensures
        final(out)@ == old(out)@ + json_field(name@, v as nat, places as nat),
{
    out.append("\"");
    out.append(name);
    out.append("\":");
    let s = format_fixed(v as u64, places);
    out.append(s.as_str());
}

pub open spec fn metrics_json(s: TelemetrySnapshot) -> Seq<char> {
    "{\"cpu\":{"@ + json_field("cpu_load"@, s.cpu.cpu_load as nat, 3) + ","@ + json_field(
        "cpu_temp_c"@,
        s.cpu.cpu_temp_c as nat,
        1,
    ) + ",\"throttling_events\":"@ + digits_of(s.cpu.throttling_events as nat) + ","@ + json_field(
        "gpu_load"@,
        s.cpu.gpu_load as nat,
        3,
    ) + ","@ + json_field("gpu_mem_util"@, s.cpu.gpu_mem_util as nat, 3) + "},\"memory\":{"@
        + json_field("ram_used_ratio"@, s.mem.ram_used_ratio as nat, 3) + ","@ + json_field(
        "swap_used_ratio"@,
        s.mem.swap_used_ratio as nat,
        3,
    ) + ","@ + json_field("major_page_faults"@, s.mem.major_page_faults as nat, 3) + ","@
        + json_field("disk_latency_ms"@, s.mem.disk_latency_ms as nat, 3) + "},\"io\":{"@
        + json_field("net_packet_loss"@, s.io.net_packet_loss as nat, 3) + ","@ + json_field(
        "net_latency_ms"@,
        s.io.net_latency_ms as nat,
        3,
    ) + ","@ + json_field("io_queue_depth"@, s.io.io_queue_depth as nat, 3) + ","@ + json_field(
        "io_error_rate"@,
        s.io.io_error_rate as nat,
        3,
    ) + "}}"@
}

/// The `/metrics` reply: status code and body; `503` until the first
/// snapshot exists.
pub fn metrics_body(m: &Option<TelemetrySnapshot>) -> (r: (u16, String))
    ensures
        match *m {
            Some(s) => r.0 == 200 && r.1@ == metrics_json(s),
            None => r.0 == 503 && r.1@ == "{\"error\":\"metrics not yet available\"}"@,
        },
{
    match m {
        None => (503, String::from_str("{\"error\":\"metrics not yet available\"}")),
        Some(s) => {
            let mut out = String::from_str("{\"cpu\":{");
            append_field(&mut out, "cpu_load", s.cpu.cpu_load, 3);
            out.append(",");
            append_field(&mut out, "cpu_temp_c", s.cpu.cpu_temp_c, 1);
            out.append(",\"throttling_events\":");
            let t = format_u64(s.cpu.throttling_events as u64);
            out.append(t.as_str());
            out.append(",");
            append_field(&mut out, "gpu_load", s.cpu.gpu_load, 3);
            out.append(",");
            append_field(&mut out, "gpu_mem_util", s.cpu.gpu_mem_util, 3);
            out.append("},\"memory\":{");
            append_field(&mut out, "ram_used_ratio", s.mem.ram_used_ratio, 3);
            out.append(",");
            append_field(&mut out, "swap_used_ratio", s.mem.swap_used_ratio, 3);
            out.append(",");
            append_field(&mut out, "major_page_faults", s.mem.major_page_faults, 3);
            out.append(",");
            append_field(&mut out, "disk_latency_ms", s.mem.disk_latency_ms, 3);
            out.append("},\"io\":{");
            append_field(&mut out, "net_packet_loss", s.io.net_packet_loss, 3);
            out.append(",");
            append_field(&mut out, "net_latency_ms", s.io.net_latency_ms, 3);
            out.append(",");
            append_field(&mut out, "io_queue_depth", s.io.io_queue_depth, 3);
            out.append(",");
            append_field(&mut out, "io_error_rate", s.io.io_error_rate, 3);
            out.append("}}");
            (200, out)
        },
    }
}

pub fn not_found_body() -> (r: String)
    ensures
        r@ == "{\"error\":\"not found\"}"@,
{
    String::from_str("{\"error\":\"not found\"}")
}

} // verus!
