//! The segment allocator: which part of stable memory each structure gets.
//!
//! The store keeps two structures, each in a segment of its own. A segment is
//! known by a fixed index, so the same name leads to the same segment every
//! time the memory is opened, and each is handed out once.

use crate::storage::{segment_index, table_get, table_init, SegmentMemory, SegmentTable};
use vstd::prelude::*;

verus! {

/// The structures that have a segment.
#[derive(Clone, Copy, Debug, PartialEq, Eq, Structural)]
pub enum SegmentName {
    /// The counter that mints identifiers.
    Counter,
    /// The map from identifiers to records.
    Records,
}

impl SegmentName {
    /// The index of the segment that belongs to this name.
    pub open spec fn spec_index(self) -> u8 {
        match self {
            SegmentName::Counter => 0,
            SegmentName::Records => 1,
        }
    }

    /// The index of the segment that belongs to this name.
    #[verifier::when_used_as_spec(spec_index)]
    pub fn index(self) -> (r: u8)
        ensures
            r == self.spec_index(),
            r != 255,
    {
        match self {
            SegmentName::Counter => 0,
            SegmentName::Records => 1,
        }
    }
}

/// Two names never share a segment.
pub proof fn law_names_have_segments_of_their_own(a: SegmentName, b: SegmentName)
    requires
        a != b,
    ensures
        a.spec_index() != b.spec_index(),
{
}

/// Hands out the segments of the default stable memory, each at most once.
pub struct SegmentAllocator {
    table: SegmentTable,
    counter_taken: bool,
    records_taken: bool,
}

impl SegmentAllocator {
    /// Whether the segment of `name` has been handed out.
    pub closed spec fn taken(&self, name: SegmentName) -> bool {
        match name {
            SegmentName::Counter => self.counter_taken,
            SegmentName::Records => self.records_taken,
        }
    }

    /// Opens the default stable memory. No segment has been handed out yet.
    ///
    /// An allocator knows what it has handed out itself, not what another
    /// allocator has. On a canister every allocator opens the same stable
    /// memory, so open one per process: structures that two allocators put
    /// into one segment would overwrite each other.
    pub fn init() -> (r: SegmentAllocator)
        ensures
            forall|name: SegmentName| !r.taken(name),
    {
        SegmentAllocator { table: table_init(), counter_taken: false, records_taken: false }
    }

    /// Hands out the segment of `name`, unless it has been handed out before.
    pub fn take(&mut self, name: SegmentName) -> (r: Option<SegmentMemory>)
        ensures
            r is Some <==> !old(self).taken(name),
            r matches Some(memory) ==> segment_index(memory) == name.spec_index(),
            final(self).taken(name),
            forall|other: SegmentName|
                other != name ==> final(self).taken(other) == old(self).taken(other),
    {
        let taken = match name {
            SegmentName::Counter => self.counter_taken,
            SegmentName::Records => self.records_taken,
        };
        if taken {
            return None;
        }
        match name {
            SegmentName::Counter => {
                self.counter_taken = true;
            },
            SegmentName::Records => {
                self.records_taken = true;
            },
        }
        Some(table_get(&self.table, name.index()))
    }
}

} // verus!
