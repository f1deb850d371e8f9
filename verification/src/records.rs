//! The durable ordered map from identifiers to encoded records.

use crate::codec::MAX_RECORD_SIZE;
use crate::project::Error;
use crate::storage::{
    bounded, stored_entries, tree_entries, tree_get, tree_init, tree_insert, tree_len, tree_reload, tree_remove,
    RecordTree, SegmentMemory,
};
use vstd::prelude::*;

verus! {

/// The value that `entries` holds under `key`, if it holds one.
pub open spec fn lookup(entries: Map<u64, Seq<u8>>, key: u64) -> Option<Seq<u8>> {
    if entries.dom().contains(key) {
        Some(entries[key])
    } else {
        None
    }
}

/// Optional bytes, taken by their view.
pub open spec fn bytes_view(bytes: Option<Vec<u8>>) -> Option<Seq<u8>> {
    match bytes {
        Some(b) => Some(b@),
        None => None,
    }
}

/// The entries a map opens with on a segment that holds `stored`: the stored
/// entries, or none where the segment holds no map yet.
pub open spec fn opening_entries(stored: Option<Map<u64, Seq<u8>>>) -> Map<u64, Seq<u8>> {
    match stored {
        Some(entries) => entries,
        None => Map::empty(),
    }
}

/// A map in stable memory from `u64` keys to byte strings of at most
/// [`MAX_RECORD_SIZE`] bytes.
pub struct DurableMap {
    tree: RecordTree,
}

impl View for DurableMap {
    type V = Map<u64, Seq<u8>>;

    closed spec fn view(&self) -> Map<u64, Seq<u8>> {
        tree_entries(self.tree)
    }
}

impl DurableMap {
    /// Whether the map keeps to its bounds: it has finitely many entries,
    /// and no value is longer than [`MAX_RECORD_SIZE`].
    pub open spec fn within_bounds(&self) -> bool {
        bounded(self@)
    }

    /// Opens the map kept in `memory`. It holds what the segment held, or
    /// nothing where the segment held no map; either way it keeps to its
    /// bounds.
    pub fn init(memory: SegmentMemory) -> (r: DurableMap)
        ensures
            r@ == opening_entries(stored_entries(memory)),
            r.within_bounds(),
    {
        DurableMap { tree: tree_init(memory) }
    }

    /// The value stored under `key`, if there is one. Nothing changes.
    pub fn get(&self, key: u64) -> (r: Option<Vec<u8>>)
        ensures
            bytes_view(r) == lookup(self@, key),
    {
        tree_get(&self.tree, key)
    }

    /// Stores `value` under `key` and returns the value it replaces, if any.
    /// A value longer than [`MAX_RECORD_SIZE`] is refused, and nothing
    /// changes.
    pub fn insert(&mut self, key: u64, value: &[u8]) -> (r: Result<Option<Vec<u8>>, Error>)
        ensures
            match r {
                Ok(previous) => {
                    &&& value@.len() <= MAX_RECORD_SIZE
                    &&& bytes_view(previous) == lookup(old(self)@, key)
                    &&& final(self)@ == old(self)@.insert(key, value@)
                },
                Err(e) => {
                    &&& value@.len() > MAX_RECORD_SIZE
                    &&& e == Error::OversizedRecord
                    &&& final(self)@ == old(self)@
                },
            },
            old(self).within_bounds() ==> final(self).within_bounds(),
    {
        if value.len() > MAX_RECORD_SIZE {
            return Err(Error::OversizedRecord);
        }
        Ok(tree_insert(&mut self.tree, key, value))
    }

    /// Removes the entry under `key` and returns its value, if there is one.
    pub fn remove(&mut self, key: u64) -> (r: Option<Vec<u8>>)
        ensures
            bytes_view(r) == lookup(old(self)@, key),
            final(self)@ == old(self)@.remove(key),
            old(self).within_bounds() ==> final(self).within_bounds(),
    {
        tree_remove(&mut self.tree, key)
    }

    /// The number of entries.
    pub fn len(&self) -> (r: u64)
        ensures
            self@.dom().finite(),
            r == self@.dom().len(),
    {
        tree_len(&self.tree)
    }

    /// Opens the map anew from its own segment, as after a restart. The
    /// entries are those that were last made durable.
    pub fn reload(self) -> (r: DurableMap)
        ensures
            r@ == self@,
    {
        DurableMap { tree: tree_reload(self.tree) }
    }
}

} // verus!
