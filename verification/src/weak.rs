//! Weak handles: non-owning observers of a cell.
//!
//! A weak handle never touches the shared flag and never keeps the payload
//! alive. Identity, equality, ordering and hashing go by the cell — the
//! shared allocation — not by the value, so weak handles key maps and sets
//! uniquely per logical object. Since slots are never reused, a weak
//! handle can always be probed.

use vstd::prelude::*;

use crate::store::RwStore;
use crate::{RwRc, RwState};

verus! {

/// A weak handle: the index of a cell, with no claim and no ownership.
#[derive(Clone, Copy, Debug, PartialEq, Eq, Hash, PartialOrd, Ord, Structural)]
pub struct RwWeak {
    /// Index of the observed cell in the store.
    pub cell: usize,
}

impl RwRc {
    /// Observe this handle's cell weakly: no claim, no ownership, no flag
    /// change — the store is not even touched.
    pub fn weak(&self) -> (w: RwWeak)
        ensures
            w.cell == self.cell,
    {
        RwWeak { cell: self.cell }
    }
}

impl RwWeak {
    /// Try to take strong ownership again. Returns a handle exactly while
    /// strong handles survive, and that handle is in Hold mode: upgrading
    /// never assumes a read or write claim and never touches the flag.
    ///
    /// The strong count must have room for one more owner when the cell is
    /// live: a machine limit of the counter.
    pub fn hold<T>(&self, store: &mut RwStore<T>) -> (r: Option<RwRc>)
        requires
            old(store).wf(),
            (self.cell as int) < old(store).n_slots(),
            old(store).live(self.cell as int) ==> old(store).strong_at(self.cell as int)
                < usize::MAX,
        ensures
            final(store).wf(),
            final(store).agrees_except(*old(store), self.cell as int),
            r is Some <==> old(store).live(self.cell as int),
            r matches Some(h) ==> h.cell == self.cell && h.state is Hold
                && h.valid(*final(store)) && final(store).strong_at(self.cell as int) == old(
                store,
            ).strong_at(self.cell as int) + 1,
            final(store).flag_at(self.cell as int) == old(store).flag_at(self.cell as int),
            final(store).val_at(self.cell as int) == old(store).val_at(self.cell as int),
            r is None ==> *final(store) == *old(store),
    {
        if store.slots[self.cell].strong >= 1 {
            let slot = &mut store.slots[self.cell];
            slot.strong = slot.strong + 1;
            Some(RwRc { cell: self.cell, state: RwState::Hold })
        } else {
            None
        }
    }
}

} // verus!
