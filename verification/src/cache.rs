//! The latest-reading cache: a single slot holding at most one reading,
//! cleared by reading it.
//!
//! The slot represents "has a new reading arrived since last check", not
//! "the most recent reading ever seen"; taking it therefore empties it.
//! Sharing the slot between the ingestion thread and the serving surface
//! is the embedding program's concern (a mutex-guarded value or an atomic
//! swap); the exchange semantics verified here are independent of that
//! choice.

use vstd::prelude::*;

use crate::meter_reading::MeterReading;

verus! {

/// A single-slot, consume-on-read holder of the most recent reading.
#[derive(Debug, Clone, PartialEq, Eq, Structural)]
pub struct LatestReadingCell {
    slot: Option<MeterReading>,
}

/// What the cell holds.
pub closed spec fn spec_cell_slot(c: LatestReadingCell) -> Option<MeterReading> {
    c.slot
}

/// The state of a cell after a reading is published into it.
pub closed spec fn spec_publish(c: LatestReadingCell, r: MeterReading) -> LatestReadingCell {
    LatestReadingCell { slot: Some(r) }
}

/// The state and yield of a cell after its contents are taken.
pub closed spec fn spec_take(c: LatestReadingCell) -> (LatestReadingCell, Option<MeterReading>) {
    (LatestReadingCell { slot: None }, c.slot)
}

impl LatestReadingCell {
    /// An empty cell.
    pub fn new() -> (r: LatestReadingCell)
        ensures
            spec_cell_slot(r) == None::<MeterReading>,
    {
        LatestReadingCell { slot: None }
    }

    /// Unconditionally replaces the slot's contents; never fails.
    pub fn publish(&mut self, reading: MeterReading)
        ensures
            *final(self) == spec_publish(*old(self), reading),
            spec_cell_slot(*final(self)) == Some(reading),
    {
        self.slot = Some(reading);
    }

    /// Reads and clears the slot, returning what was present.
    pub fn take(&mut self) -> (r: Option<MeterReading>)
        ensures
            (*final(self), r) == spec_take(*old(self)),
            r == spec_cell_slot(*old(self)),
            spec_cell_slot(*final(self)) == None::<MeterReading>,
    {
        let r = self.slot;
        self.slot = None;
        r
    }
}

/// Publishing a reading and then taking twice yields the reading once and
/// then nothing: the cache is consume-on-read.
pub proof fn lemma_publish_take_take(c: LatestReadingCell, r: MeterReading)
    ensures
        spec_take(spec_publish(c, r)).1 == Some(r),
        spec_take(spec_take(spec_publish(c, r)).0).1 == None::<MeterReading>,
{
}

} // verus!
