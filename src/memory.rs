//! Scopes of the working memory, the key/value store that daemons record
//! their latest decisions in.

use vstd::prelude::*;

verus! {

/// Logical scope for a memory entry.
#[derive(Debug, Clone, Copy, PartialEq, Eq, Hash, Structural)]
pub enum MemoryScope {
    Global,
    Node(u32),
    Organ(u32),
    Task(u64),
}

} // verus!
