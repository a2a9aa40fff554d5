//! A registry of the capabilities that organs offer, in registration order.

use vstd::prelude::*;
use crate::fixed::{SCALE, digits_of, fixed_text, format_fixed, format_u64};
use crate::organism::{OrganId, OrganKind};

verus! {

/// High-level capability types that the planner can reason about.
#[derive(Debug, Clone, Copy, PartialEq, Eq, Hash, Structural)]
pub enum CapabilityKind {
    /// General compute / reasoning work.
    CortexCompute,
    /// Long-term storage / persistence.
    StorageIo,
    /// Fast volatile memory operations.
    MemoryAccess,
    /// Network communication.
    NetworkIo,
    /// Sensor input (camera, mic, lidar, etc.)
    SensorInput,
    /// Motor / actuator control.
    MotorControl,
    /// GPU or accelerator workloads.
    GpuWorkload,
    /// System-level orchestration (start/stop tasks, spawn nodes).
    Orchestration,
    /// Anything not yet modeled explicitly.
    Other,
}

/// A single capability instance attached to an organ.
#[derive(Debug, Clone)]
pub struct Capability {
    pub id: u64,
    pub organ_id: OrganId,
    pub kind: CapabilityKind,
    /// Human-friendly short label.
    pub label: String,
    /// Free-form description.
    pub description: String,
    /// Is this capability currently usable?
    pub enabled: bool,
    /// How important this capability is for survival, in units; at most `SCALE`.
    pub priority: u32,
}

impl Capability {
    pub fn new(id: u64, organ_id: OrganId, kind: CapabilityKind, label: &str, description: &str, priority: u32) -> (r: Self)
        ensures
            r.id == id,
            r.organ_id == organ_id,
            r.kind == kind,
            r.label@ == label@,
            r.description@ == description@,
            r.enabled,
            r.priority == if priority > SCALE { SCALE } else { priority },
    {
        Capability {
            id,
            organ_id,
            kind,
            label: String::from_str(label),
            description: String::from_str(description),
            enabled: true,
            priority: if priority > SCALE {
                SCALE
            } else {
                priority
            },
        }
    }
}

/// Convenience view when asking "what can this organ do?"
#[derive(Debug, Clone)]
pub struct OrganCapabilities {
    pub organ_id: OrganId,
    pub organ_kind: OrganKind,
    pub items: Vec<Capability>,
}

/// The capabilities of `caps`, in order, whose organ is `organ`.
pub open spec fn of_organ(caps: Seq<Capability>, organ: OrganId) -> Seq<Capability>
    decreases caps.len(),
{
    if caps.len() == 0 {
        Seq::empty()
    } else if caps.last().organ_id == organ {
        of_organ(caps.drop_last(), organ).push(caps.last())
    } else {
        of_organ(caps.drop_last(), organ)
    }
}

/// The capabilities of `caps`, in order, of kind `kind`.
pub open spec fn of_kind(caps: Seq<Capability>, kind: CapabilityKind) -> Seq<Capability>
    decreases caps.len(),
{
    if caps.len() == 0 {
        Seq::empty()
    } else if caps.last().kind == kind {
        of_kind(caps.drop_last(), kind).push(caps.last())
    } else {
        of_kind(caps.drop_last(), kind)
    }
}

/// Index of the first capability with `id`.
pub open spec fn index_of(caps: Seq<Capability>, id: u64) -> Option<int>
    decreases caps.len(),
{
    if caps.len() == 0 {
        None
    } else {
        match index_of(caps.drop_last(), id) {
            Some(i) => Some(i),
            None => if caps.last().id == id {
                Some(caps.len() - 1)
            } else {
                None
            },
        }
    }
}

proof fn lemma_index_of(caps: Seq<Capability>, id: u64, i: int)
    requires
        0 <= i <= caps.len(),
        forall|k: int| 0 <= k < i ==> caps[k].id != id,
        i == caps.len() || caps[i].id == id,
    ensures
        index_of(caps, id) == if i < caps.len() {
            Some(i)
        } else {
            None::<int>
        },
    decreases caps.len(),
{
    if caps.len() > 0 {
        if i < caps.len() - 1 {
            lemma_index_of(caps.drop_last(), id, i);
        } else {
            lemma_index_of(caps.drop_last(), id, caps.len() - 1);
        }
    }
}

/// In-memory registry of all known capabilities in the organism.
pub struct CapabilityRegistry {
    items: Vec<Capability>,
    next_id: u64,
}

impl CapabilityRegistry {
    /// The registered capabilities, in registration order.
    pub closed spec fn view(&self) -> Seq<Capability> {
        self.items@
    }

    /// The id that the next registration receives.
    pub closed spec fn next_id(&self) -> u64 {
        self.next_id
    }

    pub fn new() -> (r: Self)
        ensures
            r.view() == Seq::<Capability>::empty(),
            r.next_id() == 0,
    {
        CapabilityRegistry { items: Vec::new(), next_id: 0 }
    }

    fn find(&self, id: u64) -> (r: Option<usize>)
        ensures
            match r {
                Some(i) => index_of(self.view(), id) == Some(i as int) && i < self.view().len(),
                None => index_of(self.view(), id) is None,
            },
    {
        let mut i: usize = 0;
        while i < self.items.len()
            invariant
                i <= self.items@.len(),
                forall|k: int| 0 <= k < i ==> self.items@[k].id != id,
            decreases self.items.len() - i,
        {
            if self.items[i].id == id {
                proof {
                    lemma_index_of(self.items@, id, i as int);
                }
                return Some(i);
            }
            i = i + 1;
        }
        proof {
            lemma_index_of(self.items@, id, i as int);
        }
        None
    }

    /// Register a new capability for an organ, returning its id; ids are
    /// handed out in sequence (wrapping at the top).
    pub fn register(
        &mut self,
        organ_id: OrganId,
        kind: CapabilityKind,
        label: &str,
        description: &str,
        priority: u32,
    ) -> (r: u64)
        ensures
            r == old(self).next_id(),
            final(self).next_id() == if r == u64::MAX { 0 } else { (r + 1) as u64 },
            final(self).view().len() == old(self).view().len() + 1,
            final(self).view().drop_last() == old(self).view(),
            ({
                let c = final(self).view().last();
                &&& c.id == r
                &&& c.organ_id == organ_id
                &&& c.kind == kind
                &&& c.label@ == label@
                &&& c.description@ == description@
                &&& c.enabled
                &&& c.priority == if priority > SCALE { SCALE } else { priority }
            }),
    {
        let id = self.next_id;
        self.next_id = if self.next_id == u64::MAX {
            0
        } else {
            self.next_id + 1
        };
        let cap = Capability::new(id, organ_id, kind, label, description, priority);
        let ghost before = self.items@;
        self.items.push(cap);
        assert(self.items@.drop_last() =~= before);
        id
    }

    /// The first capability with `id`.
    pub fn get(&self, id: u64) -> (r: Option<&Capability>)
        ensures
            match index_of(self.view(), id) {
                Some(i) => r is Some && *r->0 == self.view()[i],
                None => r is None,
            },
    {
        match self.find(id) {
            Some(i) => Some(&self.items[i]),
            None => None,
        }
    }

    /// The first capability with `id`, to change in place.
    pub fn get_mut(&mut self, id: u64) -> (r: Option<&mut Capability>)
        ensures
            match index_of(old(self).view(), id) {
                Some(i) => r is Some && *r->0 == old(self).view()[i] && final(self).view()
                    == old(self).view().update(i, *final(r->0)) && final(self).next_id()
                    == old(self).next_id(),
                None => r is None && *final(self) == *old(self),
            },
    {
        match self.find(id) {
            Some(i) => Some(&mut self.items[i]),
            None => None,
        }
    }

    /// The capabilities of an organ, in registration order.
    pub fn for_organ(&self, organ_id: OrganId) -> (r: Vec<&Capability>)
        ensures
            r@.len() == of_organ(self.view(), organ_id).len(),
            forall|i: int| 0 <= i < r@.len() ==> *r@[i] == of_organ(self.view(), organ_id)[i],
    {
        let ghost caps = self.items@;
        let mut out: Vec<&Capability> = Vec::new();
        let mut i: usize = 0;
        while i < self.items.len()
            invariant
                i <= caps.len(),
                caps == self.items@,
                out@.len() == of_organ(caps.take(i as int), organ_id).len(),
                forall|k: int| 0 <= k < out@.len() ==> *out@[k] == of_organ(caps.take(i as int), organ_id)[k],
            decreases caps.len() - i,
        {
            proof {
                assert(caps.take(i + 1).drop_last() =~= caps.take(i as int));
                assert(caps.take(i + 1).last() == caps[i as int]);
            }
            if self.items[i].organ_id == organ_id {
                out.push(&self.items[i]);
            }
            i = i + 1;
        }
        proof {
            assert(caps.take(caps.len() as int) =~= caps);
        }
        out
    }

    /// All capabilities of a kind, in registration order.
    pub fn by_kind(&self, kind: CapabilityKind) -> (r: Vec<&Capability>)
        ensures
            r@.len() == of_kind(self.view(), kind).len(),
            forall|i: int| 0 <= i < r@.len() ==> *r@[i] == of_kind(self.view(), kind)[i],
    {
        let ghost caps = self.items@;
        let mut out: Vec<&Capability> = Vec::new();
        let mut i: usize = 0;
        while i < self.items.len()
            invariant
                i <= caps.len(),
                caps == self.items@,
                out@.len() == of_kind(caps.take(i as int), kind).len(),
                forall|k: int| 0 <= k < out@.len() ==> *out@[k] == of_kind(caps.take(i as int), kind)[k],
            decreases caps.len() - i,
        {
            proof {
                assert(caps.take(i + 1).drop_last() =~= caps.take(i as int));
                assert(caps.take(i + 1).last() == caps[i as int]);
            }
            if self.items[i].kind == kind {
                out.push(&self.items[i]);
            }
            i = i + 1;
        }
        proof {
            assert(caps.take(caps.len() as int) =~= caps);
        }
        out
    }

    /// Enable or disable the first capability with `id`, if there is one.
    pub fn set_enabled(&mut self, id: u64, enabled: bool)
        ensures
            final(self).next_id() == old(self).next_id(),
            final(self).view() == match index_of(old(self).view(), id) {
                Some(i) => old(self).view().update(i, Capability { enabled, ..old(self).view()[i] }),
                None => old(self).view(),
            },
    {
        match self.find(id) {
            Some(i) => {
                let ghost before = self.items@;
                self.items[i].enabled = enabled;
                assert(self.items@ =~= before.update(i as int, Capability { enabled, ..before[i as int] }));
            },
            None => {},
        }
    }
}

pub open spec fn cap_kind_name(k: CapabilityKind) -> Seq<char> {
    match k {
        CapabilityKind::CortexCompute => "CortexCompute"@,
        CapabilityKind::StorageIo => "StorageIo"@,
        CapabilityKind::MemoryAccess => "MemoryAccess"@,
        CapabilityKind::NetworkIo => "NetworkIo"@,
        CapabilityKind::SensorInput => "SensorInput"@,
        CapabilityKind::MotorControl => "MotorControl"@,
        CapabilityKind::GpuWorkload => "GpuWorkload"@,
        CapabilityKind::Orchestration => "Orchestration"@,
        CapabilityKind::Other => "Other"@,
    }
}

fn cap_kind_str(k: CapabilityKind) -> (r: &'static str)
    ensures
        r@ == cap_kind_name(k),
{
    match k {
        CapabilityKind::CortexCompute => "CortexCompute",
        CapabilityKind::StorageIo => "StorageIo",
        CapabilityKind::MemoryAccess => "MemoryAccess",
        CapabilityKind::NetworkIo => "NetworkIo",
        CapabilityKind::SensorInput => "SensorInput",
        CapabilityKind::MotorControl => "MotorControl",
        CapabilityKind::GpuWorkload => "GpuWorkload",
        CapabilityKind::Orchestration => "Orchestration",
        CapabilityKind::Other => "Other",
    }
}

/// ` - #ID organ=N kind=K [enabled] prio=P :: label`, then the description
/// on its own indented line.
pub open spec fn cap_entry(c: Capability) -> Seq<char> {
    " - #"@ + digits_of(c.id as nat) + " organ="@ + digits_of(c.organ_id.0 as nat) + " kind="@
        + cap_kind_name(c.kind) + " ["@ + (if c.enabled { "enabled"@ } else { "disabled"@ })
        + "] prio="@ + fixed_text(c.priority as nat, 2) + " :: "@ + c.label@ + "\n   "@ + c.description@
        + "\n"@
}

pub open spec fn cap_entries(caps: Seq<Capability>) -> Seq<char>
    decreases caps.len(),
{
    if caps.len() == 0 {
        Seq::empty()
    } else {
        cap_entries(caps.drop_last()) + cap_entry(caps.last())
    }
}

fn append_cap_entry(out: &mut String, c: &Capability)
    ensures
        final(out)@ == old(out)@ + cap_entry(*c),
{
    out.append(" - #");
    let id = format_u64(c.id);
    out.append(id.as_str());
    out.append(" organ=");
    let organ = format_u64(c.organ_id.0 as u64);
    out.append(organ.as_str());
    out.append(" kind=");
    out.append(cap_kind_str(c.kind));
    out.append(" [");
    out.append(if c.enabled { "enabled" } else { "disabled" });
    out.append("] prio=");
    let p = format_fixed(c.priority as u64, 2);
    out.append(p.as_str());
    out.append(" :: ");
    out.append(c.label.as_str());
    out.append("\n   ");
    out.append(c.description.as_str());
    out.append("\n");
}

impl CapabilityRegistry {
    /// Text listing of every capability, in registration order.
    pub fn describe_all(&self) -> (r: String)
        ensures
            r@ == "Capabilities:\n"@ + cap_entries(self.view()),
    {
        let ghost caps = self.items@;
        let mut out = String::from_str("Capabilities:\n");
        let ghost head = out@;
        let mut i: usize = 0;
        while i < self.items.len()
            invariant
                i <= caps.len(),
                caps == self.items@,
                out@ == head + cap_entries(caps.take(i as int)),
            decreases caps.len() - i,
        {
            proof {
                assert(caps.take(i + 1).drop_last() =~= caps.take(i as int));
                assert(caps.take(i + 1).last() == caps[i as int]);
            }
            append_cap_entry(&mut out, &self.items[i]);
            proof {
                assert(out@ =~= head + cap_entries(caps.take(i + 1)));
            }
            i = i + 1;
        }
        proof {
            assert(caps.take(caps.len() as int) =~= caps);
        }
        out
    }
}

} // verus!
