//! Scoped guards: transient borrows of a handle's cell.
//!
//! A guard records the handle's mode at creation and, when it ends,
//! restores the flag to match exactly that mode. Guards do not change the
//! handle's own mode; a guard created from a Hold handle occupies a slot
//! only for its own lifetime.

use vstd::prelude::*;

use crate::store::RwStore;
use crate::{RwRc, RwState};

verus! {

/// A scoped read borrow of a cell. While it lives, the cell is readable;
/// `end` gives back the read claim the guard itself took, if any.
pub struct LocalRef {
    /// Index of the borrowed cell in the store.
    pub cell: usize,
    /// The handle's mode when the guard was created.
    pub prior: RwState,
}

/// A scoped write borrow of a cell. While it lives, the cell's flag shows
/// the exclusive writer; `end` restores the flag to match the mode the
/// handle had when the guard was created.
pub struct LocalMut {
    /// Index of the borrowed cell in the store.
    pub cell: usize,
    /// The handle's mode when the guard was created.
    pub prior: RwState,
}

impl LocalRef {
    /// The guard's cell is live, and if the guard took a read claim of its
    /// own (prior mode Hold), that claim is still registered.
    pub open spec fn valid<T>(self, store: RwStore<T>) -> bool {
        &&& store.live(self.cell as int)
        &&& (self.prior is Hold ==> 1 <= store.flag_at(self.cell as int) < usize::MAX)
        &&& (self.prior is Read ==> 1 <= store.flag_at(self.cell as int) < usize::MAX)
        &&& (self.prior is Write ==> store.flag_at(self.cell as int) == usize::MAX)
    }
}

impl LocalMut {
    /// The guard's cell is live and its flag shows the exclusive writer.
    pub open spec fn valid<T>(self, store: RwStore<T>) -> bool {
        &&& store.live(self.cell as int)
        &&& store.flag_at(self.cell as int) == usize::MAX
    }
}

impl RwRc {
    /// Try to borrow the value for reading, without changing this handle's
    /// mode. From Hold the guard takes a read claim of its own, which
    /// succeeds exactly while no writer holds the value; a Read or Write
    /// handle's standing claim already covers the borrow, so the guard
    /// takes none. On failure nothing changes.
    pub fn try_read<T>(&self, store: &mut RwStore<T>) -> (r: Option<LocalRef>)
        requires
            self.valid(*old(store)),
            old(store).wf(),
            self.state is Hold ==> old(store).flag_at(self.cell as int) != usize::MAX - 1,
        ensures
            final(store).wf(),
            r is Some <==> self.spec_is_readable(*old(store)),
            r matches Some(g) ==> g.cell == self.cell && g.prior == self.state && g.valid(
                *final(store),
            ) && self.valid(*final(store)),
            final(store).agrees_except(*old(store), self.cell as int),
            final(store).strong_at(self.cell as int) == old(store).strong_at(self.cell as int),
            final(store).val_at(self.cell as int) == old(store).val_at(self.cell as int),
            r is Some && self.state is Hold ==> final(store).flag_at(self.cell as int) == old(
                store,
            ).flag_at(self.cell as int) + 1,
            !(r is Some && self.state is Hold) ==> final(store).flag_at(self.cell as int) == old(
                store,
            ).flag_at(self.cell as int),
    {
        match self.state {
            RwState::Hold => {
                let slot = &mut store.slots[self.cell];
                if slot.flag.hold_to_read() {
                    Some(LocalRef { cell: self.cell, prior: RwState::Hold })
                } else {
                    None
                }
            },
            RwState::Read => Some(LocalRef { cell: self.cell, prior: RwState::Read }),
            RwState::Write => Some(LocalRef { cell: self.cell, prior: RwState::Write }),
        }
    }

    /// Try to borrow the value for writing, without changing this handle's
    /// mode. From Hold the guard takes the write claim, which succeeds
    /// exactly while the value is free; from Read it upgrades the flag in
    /// place — the handle's recorded mode stays Read — which succeeds
    /// exactly while this is the sole reader; a Write handle's claim
    /// already covers the borrow. On failure nothing changes.
    pub fn try_write<T>(&self, store: &mut RwStore<T>) -> (r: Option<LocalMut>)
        requires
            self.valid(*old(store)),
            old(store).wf(),
        ensures
            final(store).wf(),
            r is Some <==> self.spec_is_writeable(*old(store)),
            r matches Some(g) ==> g.cell == self.cell && g.prior == self.state && g.valid(
                *final(store),
            ),
            final(store).agrees_except(*old(store), self.cell as int),
            final(store).strong_at(self.cell as int) == old(store).strong_at(self.cell as int),
            final(store).val_at(self.cell as int) == old(store).val_at(self.cell as int),
            r is Some ==> final(store).flag_at(self.cell as int) == usize::MAX,
            r is None ==> final(store).flag_at(self.cell as int) == old(store).flag_at(
                self.cell as int,
            ),
    {
        match self.state {
            RwState::Hold => {
                let slot = &mut store.slots[self.cell];
                if slot.flag.hold_to_write() {
                    Some(LocalMut { cell: self.cell, prior: RwState::Hold })
                } else {
                    None
                }
            },
            RwState::Read => {
                let slot = &mut store.slots[self.cell];
                if slot.flag.read_to_write() {
                    Some(LocalMut { cell: self.cell, prior: RwState::Read })
                } else {
                    None
                }
            },
            RwState::Write => Some(LocalMut { cell: self.cell, prior: RwState::Write }),
        }
    }

    /// Borrow the value for reading. The caller asserts readability: call
    /// it only where `is_readable` would report true; use `try_read` to
    /// handle contention instead.
    pub fn read<T>(&self, store: &mut RwStore<T>) -> (g: LocalRef)
        requires
            self.valid(*old(store)),
            old(store).wf(),
            self.spec_is_readable(*old(store)),
            self.state is Hold ==> old(store).flag_at(self.cell as int) != usize::MAX - 1,
        ensures
            final(store).wf(),
            g.cell == self.cell,
            g.prior == self.state,
            g.valid(*final(store)),
            self.valid(*final(store)),
            final(store).agrees_except(*old(store), self.cell as int),
            final(store).strong_at(self.cell as int) == old(store).strong_at(self.cell as int),
            final(store).val_at(self.cell as int) == old(store).val_at(self.cell as int),
            self.state is Hold ==> final(store).flag_at(self.cell as int) == old(store).flag_at(
                self.cell as int,
            ) + 1,
            !(self.state is Hold) ==> final(store).flag_at(self.cell as int) == old(
                store,
            ).flag_at(self.cell as int),
    {
        self.try_read(store).unwrap()
    }

    /// Borrow the value for writing. The caller asserts writability: call
    /// it only where `is_writeable` would report true; use `try_write` to
    /// handle contention instead.
    pub fn write<T>(&self, store: &mut RwStore<T>) -> (g: LocalMut)
        requires
            self.valid(*old(store)),
            old(store).wf(),
            self.spec_is_writeable(*old(store)),
        ensures
            final(store).wf(),
            g.cell == self.cell,
            g.prior == self.state,
            g.valid(*final(store)),
            final(store).agrees_except(*old(store), self.cell as int),
            final(store).strong_at(self.cell as int) == old(store).strong_at(self.cell as int),
            final(store).val_at(self.cell as int) == old(store).val_at(self.cell as int),
            final(store).flag_at(self.cell as int) == usize::MAX,
    {
        self.try_write(store).unwrap()
    }
}

impl LocalRef {
    /// Read the borrowed value.
    pub fn value<'a, T>(&self, store: &'a RwStore<T>) -> (r: &'a T)
        requires
            self.valid(*store),
            store.wf(),
        ensures
            store.val_at(self.cell as int) == Some(*r),
    {
        store.slots[self.cell].val.as_ref().unwrap()
    }

    /// End the borrow, restoring the flag to match the mode recorded at
    /// creation: a guard that took its own read claim gives it back; one
    /// that leaned on the handle's standing claim changes nothing.
    pub fn end<T>(self, store: &mut RwStore<T>)
        requires
            self.valid(*old(store)),
            old(store).wf(),
        ensures
            final(store).wf(),
            final(store).agrees_except(*old(store), self.cell as int),
            final(store).strong_at(self.cell as int) == old(store).strong_at(self.cell as int),
            final(store).val_at(self.cell as int) == old(store).val_at(self.cell as int),
            self.prior is Hold ==> final(store).flag_at(self.cell as int) == old(store).flag_at(
                self.cell as int,
            ) - 1,
            !(self.prior is Hold) ==> final(store).flag_at(self.cell as int) == old(
                store,
            ).flag_at(self.cell as int),
    {
        match self.prior {
            RwState::Hold => {
                let slot = &mut store.slots[self.cell];
                slot.flag.read_to_hold();
            },
            RwState::Read => {},
            RwState::Write => {},
        }
    }
}

impl LocalMut {
    /// Read the borrowed value.
    pub fn value<'a, T>(&self, store: &'a RwStore<T>) -> (r: &'a T)
        requires
            self.valid(*store),
            store.wf(),
        ensures
            store.val_at(self.cell as int) == Some(*r),
    {
        store.slots[self.cell].val.as_ref().unwrap()
    }

    /// Overwrite the borrowed value. Only the payload changes: the flag
    /// and the strong count stay as they are.
    pub fn set<T>(&self, store: &mut RwStore<T>, v: T)
        requires
            self.valid(*old(store)),
            old(store).wf(),
        ensures
            final(store).wf(),
            final(store).agrees_except(*old(store), self.cell as int),
            final(store).strong_at(self.cell as int) == old(store).strong_at(self.cell as int),
            final(store).flag_at(self.cell as int) == old(store).flag_at(self.cell as int),
            final(store).val_at(self.cell as int) == Some(v),
            final(store).live(self.cell as int),
    {
        let slot = &mut store.slots[self.cell];
        slot.val = Some(v);
    }

    /// End the borrow, restoring the flag to match the mode recorded at
    /// creation: prior Hold frees the value; prior Read leaves the flag
    /// at a single reader — the handle regains its read slot; prior Write
    /// changes nothing, the handle still holds the write claim.
    pub fn end<T>(self, store: &mut RwStore<T>)
        requires
            self.valid(*old(store)),
            old(store).wf(),
        ensures
            final(store).wf(),
            final(store).agrees_except(*old(store), self.cell as int),
            final(store).strong_at(self.cell as int) == old(store).strong_at(self.cell as int),
            final(store).val_at(self.cell as int) == old(store).val_at(self.cell as int),
            self.prior is Hold ==> final(store).flag_at(self.cell as int) == 0,
            self.prior is Read ==> final(store).flag_at(self.cell as int) == 1,
            self.prior is Write ==> final(store).flag_at(self.cell as int) == old(store).flag_at(
                self.cell as int,
            ),
    {
        match self.prior {
            RwState::Hold => {
                let slot = &mut store.slots[self.cell];
                slot.flag.write_to_hold();
            },
            RwState::Read => {
                let slot = &mut store.slots[self.cell];
                slot.flag.write_to_read();
            },
            RwState::Write => {},
        }
    }
}

} // verus!
