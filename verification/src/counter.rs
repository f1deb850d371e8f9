//! The durable counter that mints identifiers.

use crate::project::Error;
use crate::storage::{
    cell_get, cell_init, cell_reload, cell_set, cell_value, stored_value, CounterCell,
    SegmentMemory,
};
use ic_stable_structures::cell::{InitError, ValueError};
use vstd::prelude::*;

verus! {

/// The value a counter opens with on a segment that holds `stored`: the
/// stored value, or zero where the segment holds no counter yet.
pub open spec fn opening_value(stored: Option<u64>) -> u64 {
    match stored {
        Some(value) => value,
        None => 0,
    }
}

/// One `u64` in stable memory: the next identifier to hand out.
pub struct DurableCounter {
    cell: CounterCell,
}

impl DurableCounter {
    /// The value the counter holds.
    pub closed spec fn value(&self) -> u64 {
        cell_value(self.cell)
    }

    /// What opening a counter comes to, given what the stable cell answered:
    /// the counter over that cell, or `StorageFatal` where no cell could be
    /// set up.
    pub fn opened(outcome: Result<CounterCell, InitError>) -> (r: Result<DurableCounter, Error>)
        ensures
            match outcome {
                Ok(cell) => r matches Ok(counter) && counter.value() == cell_value(cell),
                Err(_) => r matches Err(e) && e == Error::StorageFatal,
            },
    {
        match outcome {
            Ok(cell) => Ok(DurableCounter { cell }),
            Err(_) => Err(Error::StorageFatal),
        }
    }

    /// What minting comes to, given what the stable cell answered to the
    /// write of the next value: the value it replaced, or `StorageFatal`
    /// where the write failed.
    pub fn reserved(outcome: Result<u64, ValueError>) -> (r: Result<u64, Error>)
        ensures
            match outcome {
                Ok(previous) => r == Ok::<u64, Error>(previous),
                Err(_) => r == Err::<u64, Error>(Error::StorageFatal),
            },
    {
        match outcome {
            Ok(previous) => Ok(previous),
            Err(_) => Err(Error::StorageFatal),
        }
    }

    /// Opens the counter kept in `memory`. It holds what the segment held,
    /// or zero where the segment held no counter.
    pub fn init(memory: SegmentMemory) -> (r: Result<DurableCounter, Error>)
        ensures
            match r {
                Ok(counter) => counter.value() == opening_value(stored_value(memory)),
                Err(e) => e == Error::StorageFatal,
            },
    {
        DurableCounter::opened(cell_init(memory, 0))
    }

    /// The value of the counter. Nothing changes.
    pub fn current(&self) -> (r: u64)
        ensures
            r == self.value(),
    {
        cell_get(&self.cell)
    }

    /// Mints an identifier: makes the successor of the current value durable
    /// and returns the current value. Where that cannot be done, because the
    /// value has no successor or the write fails, the counter is unchanged
    /// and no identifier is given out.
    pub fn increment_and_get_previous(&mut self) -> (r: Result<u64, Error>)
        ensures
            match r {
                Ok(id) => id == old(self).value() && id < u64::MAX && final(self).value() == id
                    + 1,
                Err(e) => e == Error::StorageFatal && final(self).value() == old(self).value(),
            },
            old(self).value() == u64::MAX ==> r is Err,
    {
        let current: u64 = cell_get(&self.cell);
        if current == u64::MAX {
            return Err(Error::StorageFatal);
        }
        DurableCounter::reserved(cell_set(&mut self.cell, current + 1))
    }

    /// Opens the counter anew from its own segment, as after a restart.
    /// This succeeds, and the value is the one that was last made durable.
    pub fn reload(self) -> (r: Result<DurableCounter, Error>)
        ensures
            r matches Ok(counter) && counter.value() == self.value(),
    {
        DurableCounter::opened(cell_reload(self.cell, 0))
    }
}

} // verus!
