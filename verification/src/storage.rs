//! The stable structures of `ic-stable-structures` that the store is built on.
//!
//! Nothing in this file is proved: every contract here is a statement about
//! that crate, taken from its source. The rest of the library is verified
//! against these contracts.
//!
//! The structures keep their data in stable memory and abort when that memory
//! cannot grow or holds a layout they cannot read. No argument decides that,
//! so no contract here speaks of it. What an argument does decide, the length
//! of a value and the index of a segment, stands in a `requires`.

use ic_stable_structures::cell::{InitError, ValueError};
use ic_stable_structures::memory_manager::{MemoryId, MemoryManager, VirtualMemory};
use ic_stable_structures::storable::Blob;
use ic_stable_structures::{DefaultMemoryImpl, StableBTreeMap, StableCell};
use vstd::prelude::*;

verus! {

/// `cell::InitError`: why a cell could not be initialised.
#[verifier::external_type_specification]
#[verifier::external_body]
pub struct ExInitError(InitError);

/// `cell::ValueError`: why a cell could not take a value.
#[verifier::external_type_specification]
#[verifier::external_body]
pub struct ExValueError(ValueError);

/// A `MemoryManager` over the default memory: it divides that memory into
/// up to 255 segments that grow independently.
#[verifier::external_body]
pub struct SegmentTable {
    manager: MemoryManager<DefaultMemoryImpl>,
}

/// A `VirtualMemory`: one segment of the default memory.
#[verifier::external_body]
pub struct SegmentMemory {
    memory: VirtualMemory<DefaultMemoryImpl>,
}

/// A `Cell` that keeps one `u64` in a segment.
#[verifier::external_body]
pub struct CounterCell {
    cell: StableCell<u64, VirtualMemory<DefaultMemoryImpl>>,
}

/// A `BTreeMap` in a segment, from `u64` keys to byte strings of at most
/// 2048 bytes.
#[verifier::external_body]
pub struct RecordTree {
    tree: StableBTreeMap<u64, Blob<2048>, VirtualMemory<DefaultMemoryImpl>>,
}

/// The value a cell holds.
pub uninterp spec fn cell_value(c: CounterCell) -> u64;

/// The entries a tree holds.
pub uninterp spec fn tree_entries(t: RecordTree) -> Map<u64, Seq<u8>>;

/// The index of the segment that a memory is.
pub uninterp spec fn segment_index(m: SegmentMemory) -> u8;

/// The value of the cell that a segment holds, if it holds a cell.
pub uninterp spec fn stored_value(m: SegmentMemory) -> Option<u64>;

/// The entries of the map that a segment holds, if it holds a map.
pub uninterp spec fn stored_entries(m: SegmentMemory) -> Option<Map<u64, Seq<u8>>>;

/// Whether `entries` is what a tree of this type can hold: finitely many
/// entries, none with a value of more than 2048 bytes.
pub open spec fn bounded(entries: Map<u64, Seq<u8>>) -> bool {
    &&& entries.dom().finite()
    &&& forall|key: u64| #[trigger] entries.dom().contains(key) ==> entries[key].len() <= 2048
}

/// Whether `entries` has exactly `n` keys.
pub open spec fn counts(entries: Map<u64, Seq<u8>>, n: nat) -> bool {
    entries.dom().finite() && entries.dom().len() == n
}

/// `MemoryManager::init` on `DefaultMemoryImpl::default()`. Nothing is
/// claimed of what the memory holds. Built for the host, every default
/// memory is a new, empty vector; on a canister it is the canister's one
/// stable memory, whoever asks for it.
#[verifier::external_body]
pub(crate) fn table_init() -> SegmentTable {
    SegmentTable { manager: MemoryManager::init(DefaultMemoryImpl::default()) }
}

/// `MemoryManager::get` with `MemoryId::new(index)`: the memory of the
/// segment with that index. `MemoryId::new` panics on 255, which marks a
/// bucket that belongs to no segment.
#[verifier::external_body]
pub(crate) fn table_get(table: &SegmentTable, index: u8) -> (r: SegmentMemory)
    requires
        index != 255,
    ensures
        segment_index(r) == index,
{
    SegmentMemory { memory: table.manager.get(MemoryId::new(index)) }
}

/// `Cell::init`: loads the cell that the segment holds, or writes `default`
/// where it holds none. It fails on a cell of another layout version, and
/// where the default cannot be written.
#[verifier::external_body]
pub(crate) fn cell_init(memory: SegmentMemory, default: u64) -> (r: Result<CounterCell, InitError>)
    ensures
        r matches Ok(c) ==> cell_value(c) == (match stored_value(memory) {
            Some(v) => v,
            None => default,
        }),
{
    match StableCell::init(memory.memory, default) {
        Ok(cell) => Ok(CounterCell { cell }),
        Err(e) => Err(e),
    }
}

/// `Cell::get`: the value the cell holds.
#[verifier::external_body]
pub(crate) fn cell_get(c: &CounterCell) -> (r: u64)
    ensures
        r == cell_value(*c),
{
    *c.cell.get()
}

/// `Cell::set`: writes `value` to the segment and, if that succeeds, makes
/// it the cell's value and returns the value it replaces. If the write
/// fails the cell keeps its value.
#[verifier::external_body]
pub(crate) fn cell_set(c: &mut CounterCell, value: u64) -> (r: Result<u64, ValueError>)
    ensures
        match r {
            Ok(previous) => previous == cell_value(*old(c)) && cell_value(*final(c)) == value,
            Err(_) => cell_value(*final(c)) == cell_value(*old(c)),
        },
{
    c.cell.set(value)
}

/// `Cell::init` on the cell's own segment, given up by `Cell::into_memory`,
/// with `default` for a segment that holds no cell. `Cell::init` fails only on a segment that holds a cell of another layout
/// version, or where it has to write a new cell and cannot. The segment of a
/// cell holds a cell of this version with the value last written, so the
/// load succeeds and the cell that is loaded holds the same value.
#[verifier::external_body]
pub(crate) fn cell_reload(c: CounterCell, default: u64) -> (r: Result<CounterCell, InitError>)
    ensures
        r is Ok,
        r matches Ok(loaded) ==> cell_value(loaded) == cell_value(c),
{
    match StableCell::init(c.cell.into_memory(), default) {
        Ok(cell) => Ok(CounterCell { cell }),
        Err(e) => Err(e),
    }
}

/// `BTreeMap::init`: loads the map that the segment holds, or creates an
/// empty one where it holds none. Either way the type gives its bounds: the
/// map counts its entries in a `u64`, and hands every value out as a
/// `Blob<2048>`, which holds at most 2048 bytes.
#[verifier::external_body]
pub(crate) fn tree_init(memory: SegmentMemory) -> (r: RecordTree)
    ensures
        bounded(tree_entries(r)),
        tree_entries(r) == (match stored_entries(memory) {
            Some(entries) => entries,
            None => Map::empty(),
        }),
{
    RecordTree { tree: StableBTreeMap::init(memory.memory) }
}

/// `BTreeMap::get`: the value stored under `key`, if there is one.
#[verifier::external_body]
pub(crate) fn tree_get(t: &RecordTree, key: u64) -> (r: Option<Vec<u8>>)
    ensures
        match r {
            Some(value) => tree_entries(*t).dom().contains(key) && value@ == tree_entries(*t)[key],
            None => !tree_entries(*t).dom().contains(key),
        },
{
    t.tree.get(&key).map(|blob| blob.as_slice().to_vec())
}

/// `BTreeMap::insert`: stores `value` under `key` and returns the value it
/// replaces, if any. It panics on a value longer than the bound of its value
/// type, here 2048 bytes.
#[verifier::external_body]
pub(crate) fn tree_insert(t: &mut RecordTree, key: u64, value: &[u8]) -> (r: Option<Vec<u8>>)
    requires
        value@.len() <= 2048,
    ensures
        tree_entries(*final(t)) == tree_entries(*old(t)).insert(key, value@),
        match r {
            Some(previous) => tree_entries(*old(t)).dom().contains(key) && previous@
                == tree_entries(*old(t))[key],
            None => !tree_entries(*old(t)).dom().contains(key),
        },
{
    t.tree.insert(key, Blob::try_from(value).unwrap()).map(|blob| blob.as_slice().to_vec())
}

/// `BTreeMap::remove`: removes the entry under `key` and returns its value,
/// if there is one.
#[verifier::external_body]
pub(crate) fn tree_remove(t: &mut RecordTree, key: u64) -> (r: Option<Vec<u8>>)
    ensures
        tree_entries(*final(t)) == tree_entries(*old(t)).remove(key),
        match r {
            Some(previous) => tree_entries(*old(t)).dom().contains(key) && previous@
                == tree_entries(*old(t))[key],
            None => !tree_entries(*old(t)).dom().contains(key),
        },
{
    t.tree.remove(&key).map(|blob| blob.as_slice().to_vec())
}

/// `BTreeMap::len`: the number of entries.
#[verifier::external_body]
pub(crate) fn tree_len(t: &RecordTree) -> (r: u64)
    ensures
        counts(tree_entries(*t), r as nat),
{
    t.tree.len()
}

/// `BTreeMap::init` on the map's own segment, given up by
/// `BTreeMap::into_memory`. Every insertion and removal is written to the
/// segment before it returns, so the map that is loaded has the same entries.
#[verifier::external_body]
pub(crate) fn tree_reload(t: RecordTree) -> (r: RecordTree)
    ensures
        tree_entries(r) == tree_entries(t),
{
    RecordTree { tree: StableBTreeMap::init(t.tree.into_memory()) }
}

} // verus!
