//! The organism: nodes, organs with a health each, and their peripherals;
//! the awareness index and its label.

use vstd::prelude::*;
use crate::fixed::{SCALE, digits_of, format_u64};

verus! {

#[derive(Debug, Clone, Copy, PartialEq, Eq, Structural)]
pub enum OrganKind {
    Cortex,
    Memory,
    IoBridge,
    SensorHub,
    MotorControl,
    Network,
    Storage,
}

#[derive(Debug, Clone, Copy, PartialEq, Eq, Hash, Structural)]
pub enum CapabilityKind {
    Compute,
    Perception,
    Actuation,
    Storage,
    Networking,
    Planning,
    Learning,
}

#[derive(Debug, Clone, Copy, PartialEq, Eq, Structural)]
pub enum PeripheralKind {
    Cpu,
    Gpu,
    Nic,
    Disk,
    Usb,
    Sensor,
    Motor,
    Display,
    Unknown,
}

#[derive(Debug, Clone)]
pub struct Peripheral {
    pub kind: PeripheralKind,
    pub name: String,
}

#[derive(Debug, Clone, Copy, PartialEq, Eq, Structural)]
pub struct NodeId(pub u32);

#[derive(Debug, Clone, Copy, PartialEq, Eq, Structural)]
pub struct OrganId(pub u32);

#[derive(Debug, Clone)]
pub struct Organ {
    pub id: OrganId,
    pub node: NodeId,
    pub kind: OrganKind,
    pub caps: Vec<CapabilityKind>,
    /// Health in units of `1 / SCALE`; between `0` and `SCALE`.
    pub health: u32,
    pub peripherals: Vec<Peripheral>,
}

#[derive(Debug, Clone)]
pub struct Node {
    pub id: NodeId,
    pub label: String,
    pub role: String,
}

#[derive(Debug, Clone)]
pub struct SystemTopology {
    pub nodes: Vec<Node>,
    pub organs: Vec<Organ>,
}

/// The name of an organ kind, as it is printed and saved.
pub open spec fn kind_name(k: OrganKind) -> Seq<char> {
    match k {
        OrganKind::Cortex => "Cortex"@,
        OrganKind::Memory => "Memory"@,
        OrganKind::IoBridge => "IoBridge"@,
        OrganKind::SensorHub => "SensorHub"@,
        OrganKind::MotorControl => "MotorControl"@,
        OrganKind::Network => "Network"@,
        OrganKind::Storage => "Storage"@,
    }
}

pub fn organ_kind_str(k: OrganKind) -> (r: &'static str)
    ensures
        r@ == kind_name(k),
{
    match k {
        OrganKind::Cortex => "Cortex",
        OrganKind::Memory => "Memory",
        OrganKind::IoBridge => "IoBridge",
        OrganKind::SensorHub => "SensorHub",
        OrganKind::MotorControl => "MotorControl",
        OrganKind::Network => "Network",
        OrganKind::Storage => "Storage",
    }
}

/// Every organ's health lies in `[0, SCALE]`.
pub open spec fn healths_in_range(organs: Seq<Organ>) -> bool {
    forall|i: int| 0 <= i < organs.len() ==> #[trigger] organs[i].health <= SCALE
}

impl SystemTopology {
    pub open spec fn wf(&self) -> bool {
        healths_in_range(self.organs@)
    }
}

impl Organ {
    /// Does this organ provide a specific capability?
    pub fn has_capability(&self, cap: CapabilityKind) -> (r: bool)
        ensures
            r == self.caps@.contains(cap),
    {
        let mut i: usize = 0;
        while i < self.caps.len()
            invariant
                i <= self.caps@.len(),
                forall|k: int| 0 <= k < i ==> self.caps@[k] != cap,
            decreases self.caps.len() - i,
        {
            if self.caps[i] == cap {
                return true;
            }
            i = i + 1;
        }
        false
    }

    /// Does this organ provide any of the listed capabilities?
    pub fn has_any_capability(&self, caps: &[CapabilityKind]) -> (r: bool)
        ensures
            r == exists|j: int| 0 <= j < caps@.len() && self.caps@.contains(#[trigger] caps@[j]),
    {
        let mut j: usize = 0;
        while j < caps.len()
            invariant
                j <= caps@.len(),
                forall|k: int| 0 <= k < j ==> !self.caps@.contains(#[trigger] caps@[k]),
            decreases caps.len() - j,
        {
            if self.has_capability(caps[j]) {
                return true;
            }
            j = j + 1;
        }
        false
    }
}

/// Health of the last organ of `kind`, or full health when there is none.
pub open spec fn role_health(organs: Seq<Organ>, kind: OrganKind) -> nat
    decreases organs.len(),
{
    if organs.len() == 0 {
        SCALE as nat
    } else if organs.last().kind == kind {
        organs.last().health as nat
    } else {
        role_health(organs.drop_last(), kind)
    }
}

/// `0.5 * cortex + 0.3 * memory + 0.2 * io`, rounded down and capped at `1.0`.
pub open spec fn weighted_awareness(cortex: nat, memory: nat, io: nat) -> nat {
    let w = (5 * cortex + 3 * memory + 2 * io) / 10;
    if w > SCALE {
        SCALE as nat
    } else {
        w
    }
}

pub open spec fn awareness_of(organs: Seq<Organ>) -> nat {
    weighted_awareness(
        role_health(organs, OrganKind::Cortex),
        role_health(organs, OrganKind::Memory),
        role_health(organs, OrganKind::IoBridge),
    )
}

/// Compute the awareness index (in units) from the core organs' health.
pub fn compute_awareness(topology: &SystemTopology) -> (r: u32)
    ensures
        r == awareness_of(topology.organs@),
        r <= SCALE,
{
    let mut cortex_h: u32 = SCALE;
    let mut memory_h: u32 = SCALE;
    let mut io_h: u32 = SCALE;
    let ghost organs = topology.organs@;
    let mut i: usize = 0;
    while i < topology.organs.len()
        invariant
            i <= organs.len(),
            organs == topology.organs@,
            cortex_h == role_health(organs.take(i as int), OrganKind::Cortex),
            memory_h == role_health(organs.take(i as int), OrganKind::Memory),
            io_h == role_health(organs.take(i as int), OrganKind::IoBridge),
        decreases organs.len() - i,
    {
        let organ = &topology.organs[i];
        proof {
            assert(organs.take(i + 1).drop_last() =~= organs.take(i as int));
            assert(organs.take(i + 1).last() == organs[i as int]);
        }
        match organ.kind {
            OrganKind::Cortex => cortex_h = organ.health,
            OrganKind::Memory => memory_h = organ.health,
            OrganKind::IoBridge => io_h = organ.health,
            _ => {},
        }
        i = i + 1;
    }
    proof {
        assert(organs.take(organs.len() as int) =~= organs);
    }
    let w: u64 = (5 * cortex_h as u64 + 3 * memory_h as u64 + 2 * io_h as u64) / 10;
    if w > SCALE as u64 {
        SCALE
    } else {
        w as u32
    }
}

pub open spec fn awareness_label(a: nat) -> Seq<char> {
    if a >= 85_000 {
        "optimal"@
    } else if a >= 60_000 {
        "stable"@
    } else if a >= 35_000 {
        "impaired"@
    } else if a > 0 {
        "critical"@
    } else {
        "unconscious"@
    }
}

/// Turn an awareness score into a human-readable label; each band includes
/// its lower bound.
pub fn describe_awareness(a: u32) -> (r: &'static str)
    ensures
        r@ == awareness_label(a as nat),
{
    if a >= 85_000 {
        "optimal"
    } else if a >= 60_000 {
        "stable"
    } else if a >= 35_000 {
        "impaired"
    } else if a > 0 {
        "critical"
    } else {
        "unconscious"
    }
}

/// The organs, in order, that provide `cap`.
pub open spec fn organs_having(organs: Seq<Organ>, cap: CapabilityKind) -> Seq<Organ>
    decreases organs.len(),
{
    if organs.len() == 0 {
        Seq::empty()
    } else if organs.last().caps@.contains(cap) {
        organs_having(organs.drop_last(), cap).push(organs.last())
    } else {
        organs_having(organs.drop_last(), cap)
    }
}

/// The organs, in order, that provide at least one of `caps`.
pub open spec fn organs_having_any(organs: Seq<Organ>, caps: Seq<CapabilityKind>) -> Seq<Organ>
    decreases organs.len(),
{
    if organs.len() == 0 {
        Seq::empty()
    } else if exists|j: int| 0 <= j < caps.len() && organs.last().caps@.contains(#[trigger] caps[j]) {
        organs_having_any(organs.drop_last(), caps).push(organs.last())
    } else {
        organs_having_any(organs.drop_last(), caps)
    }
}

/// Find all organs that provide a given capability.
pub fn organs_with_capability<'a>(topology: &'a SystemTopology, cap: CapabilityKind) -> (r: Vec<&'a Organ>)
    ensures
        r@.len() == organs_having(topology.organs@, cap).len(),
        forall|i: int| 0 <= i < r@.len() ==> *r@[i] == organs_having(topology.organs@, cap)[i],
{
    let ghost organs = topology.organs@;
    let mut out: Vec<&'a Organ> = Vec::new();
    let mut i: usize = 0;
    while i < topology.organs.len()
        invariant
            i <= organs.len(),
            organs == topology.organs@,
            out@.len() == organs_having(organs.take(i as int), cap).len(),
            forall|k: int| 0 <= k < out@.len() ==> *out@[k] == organs_having(organs.take(i as int), cap)[k],
        decreases organs.len() - i,
    {
        proof {
            assert(organs.take(i + 1).drop_last() =~= organs.take(i as int));
            assert(organs.take(i + 1).last() == organs[i as int]);
        }
        let organ = &topology.organs[i];
        if organ.has_capability(cap) {
            out.push(organ);
        }
        i = i + 1;
    }
    proof {
        assert(organs.take(organs.len() as int) =~= organs);
    }
    out
}

/// Find all organs that provide any of the requested capabilities.
pub fn organs_with_any_capability<'a>(topology: &'a SystemTopology, caps: &[CapabilityKind]) -> (r: Vec<&'a Organ>)
    ensures
        r@.len() == organs_having_any(topology.organs@, caps@).len(),
        forall|i: int| 0 <= i < r@.len() ==> *r@[i] == organs_having_any(topology.organs@, caps@)[i],
{
    let ghost organs = topology.organs@;
    let mut out: Vec<&'a Organ> = Vec::new();
    let mut i: usize = 0;
    while i < topology.organs.len()
        invariant
            i <= organs.len(),
            organs == topology.organs@,
            out@.len() == organs_having_any(organs.take(i as int), caps@).len(),
            forall|k: int| 0 <= k < out@.len() ==> *out@[k] == organs_having_any(organs.take(i as int), caps@)[k],
        decreases organs.len() - i,
    {
        proof {
            assert(organs.take(i + 1).drop_last() =~= organs.take(i as int));
            assert(organs.take(i + 1).last() == organs[i as int]);
        }
        let organ = &topology.organs[i];
        if organ.has_any_capability(caps) {
            out.push(organ);
        }
        i = i + 1;
    }
    proof {
        assert(organs.take(organs.len() as int) =~= organs);
    }
    out
}

fn peripheral(kind: PeripheralKind, name: &str) -> (r: Peripheral)
    ensures
        r.kind == kind,
        r.name@ == name@,
{
    Peripheral { kind, name: String::from_str(name) }
}

/// The sample topology: node 1 (`core-0`, the primary brain) holds the
/// cortex and the memory organ, node 2 (`io-0`, the peripheral bridge) the
/// I/O bridge; their health is `0.98`, `0.99` and `0.97`.
pub fn sample_topology() -> (r: SystemTopology)
    ensures
        r.wf(),
        r.nodes@.len() == 2,
        r.nodes@[0].id == NodeId(1),
        r.nodes@[0].label@ == "core-0"@,
        r.nodes@[0].role@ == "primary brain"@,
        r.nodes@[1].id == NodeId(2),
        r.nodes@[1].label@ == "io-0"@,
        r.nodes@[1].role@ == "peripheral bridge"@,
        r.organs@.len() == 3,
        r.organs@[0].id == OrganId(1),
        r.organs@[0].node == NodeId(1),
        r.organs@[0].kind == OrganKind::Cortex,
        r.organs@[0].health == 98_000,
        r.organs@[0].caps@ == seq![
            CapabilityKind::Compute,
            CapabilityKind::Planning,
            CapabilityKind::Learning,
        ],
        r.organs@[0].peripherals@.len() == 2,
        r.organs@[1].id == OrganId(2),
        r.organs@[1].node == NodeId(1),
        r.organs@[1].kind == OrganKind::Memory,
        r.organs@[1].health == 99_000,
        r.organs@[1].caps@ == seq![CapabilityKind::Storage, CapabilityKind::Perception],
        r.organs@[1].peripherals@.len() == 1,
        r.organs@[2].id == OrganId(3),
        r.organs@[2].node == NodeId(2),
        r.organs@[2].kind == OrganKind::IoBridge,
        r.organs@[2].health == 97_000,
        r.organs@[2].caps@ == seq![CapabilityKind::Networking, CapabilityKind::Actuation],
        r.organs@[2].peripherals@.len() == 3,
{
    let node_core = Node {
        id: NodeId(1),
        label: String::from_str("core-0"),
        role: String::from_str("primary brain"),
    };
    let node_io = Node {
        id: NodeId(2),
        label: String::from_str("io-0"),
        role: String::from_str("peripheral bridge"),
    };
    let cortex = Organ {
        id: OrganId(1),
        node: node_core.id,
        kind: OrganKind::Cortex,
        caps: vec![CapabilityKind::Compute, CapabilityKind::Planning, CapabilityKind::Learning],
        health: 98_000,
        peripherals: vec![
            peripheral(PeripheralKind::Cpu, "Sim-CPU-0"),
            peripheral(PeripheralKind::Gpu, "Sim-GPU-0"),
        ],
    };
    let memory = Organ {
        id: OrganId(2),
        node: node_core.id,
        kind: OrganKind::Memory,
        caps: vec![CapabilityKind::Storage, CapabilityKind::Perception],
        health: 99_000,
        peripherals: vec![peripheral(PeripheralKind::Disk, "Sim-NVMe-0")],
    };
    let io_bridge = Organ {
        id: OrganId(3),
        node: node_io.id,
        kind: OrganKind::IoBridge,
        caps: vec![CapabilityKind::Networking, CapabilityKind::Actuation],
        health: 97_000,
        peripherals: vec![
            peripheral(PeripheralKind::Nic, "Sim-10G-NIC-0"),
            peripheral(PeripheralKind::Usb, "Sim-USB-Hub-0"),
            peripheral(PeripheralKind::Display, "Sim-Display-0"),
        ],
    };
    let r = SystemTopology { nodes: vec![node_core, node_io], organs: vec![cortex, memory, io_bridge] };
    assert(r.organs@[0].caps@ =~= seq![
        CapabilityKind::Compute,
        CapabilityKind::Planning,
        CapabilityKind::Learning,
    ]);
    assert(r.organs@[1].caps@ =~= seq![CapabilityKind::Storage, CapabilityKind::Perception]);
    assert(r.organs@[2].caps@ =~= seq![CapabilityKind::Networking, CapabilityKind::Actuation]);
    r
}

/// `label (role)` of one node.
pub open spec fn node_entry(n: Node) -> Seq<char> {
    n.label@ + " ("@ + n.role@ + ")"@
}

/// The nodes' entries separated by `, `.
pub open spec fn joined_entries(nodes: Seq<Node>) -> Seq<char>
    decreases nodes.len(),
{
    if nodes.len() == 0 {
        Seq::empty()
    } else if nodes.len() == 1 {
        node_entry(nodes[0])
    } else {
        joined_entries(nodes.drop_last()) + ", "@ + node_entry(nodes.last())
    }
}

/// `N node(s), M organ(s)`, followed by ` :: ` and the node entries when
/// there is a node.
pub open spec fn topology_brief(t: SystemTopology) -> Seq<char> {
    let head = digits_of(t.nodes@.len()) + " node(s), "@ + digits_of(t.organs@.len()) + " organ(s)"@;
    if t.nodes@.len() > 0 {
        head + " :: "@ + joined_entries(t.nodes@)
    } else {
        head
    }
}

/// Return a brief summary used in status messages.
pub fn format_topology_brief(topology: &SystemTopology) -> (r: String)
    ensures
        r@ == topology_brief(*topology),
{
    let mut out = format_u64(topology.nodes.len() as u64);
    out.append(" node(s), ");
    let organs = format_u64(topology.organs.len() as u64);
    out.append(organs.as_str());
    out.append(" organ(s)");
    if topology.nodes.len() > 0 {
        out.append(" :: ");
        let ghost nodes = topology.nodes@;
        let ghost head = out@;
        let mut i: usize = 0;
        while i < topology.nodes.len()
            invariant
                i <= nodes.len(),
                nodes == topology.nodes@,
                out@ == head + joined_entries(nodes.take(i as int)),
            decreases nodes.len() - i,
        {
            let node = &topology.nodes[i];
            proof {
                assert(nodes.take(i + 1).drop_last() =~= nodes.take(i as int));
                assert(nodes.take(i + 1).last() == nodes[i as int]);
                if i == 0 {
                    assert(nodes.take(1)[0] == nodes[0]);
                }
            }
            if i > 0 {
                out.append(", ");
            }
            out.append(node.label.as_str());
            out.append(" (");
            out.append(node.role.as_str());
            out.append(")");
            proof {
                if i == 0 {
                    assert(head + joined_entries(nodes.take(i as int)) =~= head);
                }
                assert(out@ =~= head + joined_entries(nodes.take(i + 1)));
            }
            i = i + 1;
        }
        proof {
            assert(nodes.take(nodes.len() as int) =~= nodes);
        }
    }
    out
}

} // verus!
