//! The arena that owns the shared cells.
//!
//! Each cell holds one payload, its shared flag, and the count of strong
//! handles to it. Slots are never reused: when the last strong handle is
//! dropped, the payload is destroyed and the slot stays behind as a dead
//! marker, so weak handles can keep probing it safely.

use vstd::prelude::*;

use crate::flag::RwFlag;

verus! {

/// One shared cell: the payload (while any strong handle lives), its
/// shared flag, and the number of strong handles.
pub struct RwSlot<T> {
    /// The shared read/write state of this cell.
    pub flag: RwFlag,
    /// How many strong handles point at this cell.
    pub strong: usize,
    /// The payload; `None` once the last strong handle is gone.
    pub val: Option<T>,
}

/// The arena of shared cells that handles index into.
pub struct RwStore<T> {
    /// The cells, in order of creation; slots are never reused.
    pub slots: Vec<RwSlot<T>>,
}

impl<T> RwStore<T> {
    /// Number of slots ever created in this store.
    pub open spec fn n_slots(self) -> nat {
        self.slots@.len()
    }

    /// `i` names a slot of this store.
    pub open spec fn in_bounds(self, i: int) -> bool {
        0 <= i < self.slots@.len()
    }

    /// Slot `i` still has strong handles, so its payload is present.
    pub open spec fn live(self, i: int) -> bool {
        self.in_bounds(i) && self.slots@[i].strong >= 1
    }

    /// The shared flag counter of slot `i`.
    pub open spec fn flag_at(self, i: int) -> usize {
        self.slots@[i].flag.count
    }

    /// The strong-handle count of slot `i`.
    pub open spec fn strong_at(self, i: int) -> usize {
        self.slots@[i].strong
    }

    /// The payload of slot `i`, if it is still present.
    pub open spec fn val_at(self, i: int) -> Option<T> {
        self.slots@[i].val
    }

    /// A slot's payload is present exactly while strong handles remain.
    pub open spec fn wf(self) -> bool {
        forall|i: int|
            0 <= i < self.slots@.len() ==> ((#[trigger] self.slots@[i]).strong >= 1 <==> self.slots@[i].val is Some)
    }

    /// Every slot but `i` is exactly as in `other`: claims on one value
    /// never touch another value's cell.
    pub open spec fn agrees_except(self, other: RwStore<T>, i: int) -> bool {
        &&& self.slots@.len() == other.slots@.len()
        &&& forall|j: int|
            0 <= j < self.slots@.len() && j != i ==> self.slots@[j] == other.slots@[j]
    }

    /// An empty store, ready to have values wrapped into it.
    pub fn new() -> (s: RwStore<T>)
        ensures
            s.n_slots() == 0,
            s.wf(),
    {
        RwStore { slots: Vec::new() }
    }

    /// The shared flag of a live slot, for inspection.
    pub fn flag_of(&self, cell: usize) -> (r: &RwFlag)
        requires
            self.in_bounds(cell as int),
        ensures
            r.count == self.flag_at(cell as int),
    {
        &self.slots[cell].flag
    }
}

} // verus!
