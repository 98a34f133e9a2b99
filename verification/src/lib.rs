//! Reference-counted handles with a persistent, toggle-able read/write mode.
//!
//! Many handles share one value. A single counter per value (the shared
//! flag, [`flag::RwFlag`]) records how many read claims, or the one write
//! claim, stand at any instant. Each handle carries a mode ([`RwState`]):
//! `Hold` (no claim), `Read` (one read claim registered), or `Write` (the
//! sole write claim). Every access check is a synchronous probe of the
//! counter; failure returns at once, nothing ever blocks.
//!
//! Shared ownership is expressed with an arena: an [`store::RwStore`]
//! owns the cells (payload, flag, strong count), and a handle is an index
//! into it. Slots are never reused, so a weak handle ([`weak::RwWeak`])
//! is an index that can always be probed; the payload is destroyed when
//! the last strong handle is dropped.

mod claims;
mod flag;
mod local;
mod store;
mod weak;

pub use claims::{
    claims_tracked, handles_tracked, lemma_acquire_read_tracked, lemma_acquire_write_tracked,
    lemma_claims_exclusive, lemma_claims_push, lemma_claims_remove,
    lemma_handles_acquire_read, lemma_handles_acquire_write, lemma_handles_clone_read,
    lemma_handles_exclusive, lemma_handles_join_hold, lemma_handles_leave_hold,
    lemma_handles_new, lemma_handles_release_read, lemma_handles_release_write,
    lemma_handles_upgrade, lemma_new_read_tracked, lemma_read_claims_update,
    lemma_reader_counted, lemma_release_read_tracked, lemma_release_write_to_free_tracked,
    lemma_release_write_to_read_tracked, lemma_sole_reader_tracked, lemma_upgrade_tracked,
    lemma_write_claims_update, lemma_writer_counted, mode_reads, mode_writes, read_claims,
    write_claims,
};
pub use flag::RwFlag;
pub use local::{LocalMut, LocalRef};
pub use store::{RwSlot, RwStore};
pub use weak::RwWeak;

use vstd::prelude::*;

verus! {

/// The mode of one handle: which claim it has registered in the shared flag.
#[derive(Clone, Copy, Debug)]
pub enum RwState {
    /// No claim registered; queries defer to the shared flag.
    Hold,
    /// One read claim registered.
    Read,
    /// The sole write claim registered.
    Write,
}

/// A strong handle to a shared value: an index into an [`RwStore`] plus
/// the mode recording which claim this handle holds.
pub struct RwRc {
    /// Index of the cell in the store.
    pub cell: usize,
    /// The claim this handle currently holds.
    pub state: RwState,
}

impl RwRc {
    /// The handle points at a live cell, and the claim its mode records is
    /// really registered in that cell's flag.
    pub open spec fn valid<T>(self, store: RwStore<T>) -> bool {
        &&& store.live(self.cell as int)
        &&& (self.state is Read ==> 1 <= store.flag_at(self.cell as int) < usize::MAX)
        &&& (self.state is Write ==> store.flag_at(self.cell as int) == usize::MAX)
    }

    /// What `is_readable` reports: a Read or Write handle is always
    /// readable; a Hold handle is readable while no writer holds the value.
    pub open spec fn spec_is_readable<T>(self, store: RwStore<T>) -> bool {
        self.state is Hold ==> store.flag_at(self.cell as int) != usize::MAX
    }

    /// What `is_writeable` reports: a Write handle is always writable; a
    /// Read handle is writable when its claim is the only one; a Hold
    /// handle is writable while the value is free.
    pub open spec fn spec_is_writeable<T>(self, store: RwStore<T>) -> bool {
        match self.state {
            RwState::Hold => store.flag_at(self.cell as int) == 0,
            RwState::Read => store.flag_at(self.cell as int) == 0 || store.flag_at(
                self.cell as int,
            ) == 1,
            RwState::Write => true,
        }
    }

    /// Wrap a value: a fresh cell with one read claim pre-registered, and
    /// a handle in Read mode owning that claim.
    pub fn new<T>(store: &mut RwStore<T>, val: T) -> (h: RwRc)
        requires
            old(store).wf(),
        ensures
            final(store).wf(),
            h.state is Read,
            h.cell == old(store).n_slots(),
            final(store).n_slots() == old(store).n_slots() + 1,
            h.valid(*final(store)),
            final(store).flag_at(h.cell as int) == 1,
            final(store).strong_at(h.cell as int) == 1,
            final(store).val_at(h.cell as int) == Some(val),
            forall|j: int|
                0 <= j < old(store).n_slots() ==> final(store).slots@[j] == old(store).slots@[j],
    {
        let cell = store.slots.len();
        store.slots.push(RwSlot { flag: RwFlag::new_read(), strong: 1, val: Some(val) });
        RwRc { cell, state: RwState::Read }
    }

    /// Same as [`RwRc::new`]: wrapping a value yields a handle in Read mode.
    pub fn from<T>(store: &mut RwStore<T>, val: T) -> (h: RwRc)
        requires
            old(store).wf(),
        ensures
            final(store).wf(),
            h.state is Read,
            h.cell == old(store).n_slots(),
            final(store).n_slots() == old(store).n_slots() + 1,
            h.valid(*final(store)),
            final(store).flag_at(h.cell as int) == 1,
            final(store).strong_at(h.cell as int) == 1,
            final(store).val_at(h.cell as int) == Some(val),
            forall|j: int|
                0 <= j < old(store).n_slots() ==> final(store).slots@[j] == old(store).slots@[j],
    {
        RwRc::new(store, val)
    }

    /// Whether this handle may read now: Read and Write modes always may;
    /// Hold defers to the shared flag.
    pub fn is_readable<T>(&self, store: &RwStore<T>) -> (r: bool)
        requires
            self.valid(*store),
        ensures
            r == self.spec_is_readable(*store),
    {
        match self.state {
            RwState::Hold => store.flag_of(self.cell).is_readable(),
            RwState::Read => true,
            RwState::Write => true,
        }
    }

    /// Whether this handle could write now: Write mode always may; Read
    /// may when it is the sole reader; Hold defers to the shared flag.
    pub fn is_writeable<T>(&self, store: &RwStore<T>) -> (r: bool)
        requires
            self.valid(*store),
        ensures
            r == self.spec_is_writeable(*store),
    {
        match self.state {
            RwState::Hold => store.flag_of(self.cell).is_writeable(),
            RwState::Read => store.flag_of(self.cell).is_this_writeable(),
            RwState::Write => true,
        }
    }

    /// Try to move this handle to Read mode. From Hold it registers a read
    /// claim, which succeeds exactly while no writer holds the value; from
    /// Read or Write it succeeds with no flag change. On failure nothing
    /// changes. Returns success — exactly what `is_readable` reported.
    pub fn try_read_global<T>(&mut self, store: &mut RwStore<T>) -> (r: bool)
        requires
            old(self).valid(*old(store)),
            old(store).wf(),
            old(self).state is Hold ==> old(store).flag_at(old(self).cell as int) != usize::MAX
                - 1,
        ensures
            final(store).wf(),
            final(self).cell == old(self).cell,
            r == old(self).spec_is_readable(*old(store)),
            final(self).valid(*final(store)),
            final(store).agrees_except(*old(store), old(self).cell as int),
            final(store).strong_at(old(self).cell as int) == old(store).strong_at(
                old(self).cell as int,
            ),
            final(store).val_at(old(self).cell as int) == old(store).val_at(
                old(self).cell as int,
            ),
            r && old(self).state is Hold ==> final(self).state is Read && final(store).flag_at(
                old(self).cell as int,
            ) == old(store).flag_at(old(self).cell as int) + 1,
            !(r && old(self).state is Hold) ==> final(self).state == old(self).state
                && final(store).flag_at(old(self).cell as int) == old(store).flag_at(
                old(self).cell as int,
            ),
    {
        match self.state {
            RwState::Hold => {
                let slot = &mut store.slots[self.cell];
                if !slot.flag.hold_to_read() {
                    return false;
                }
                self.state = RwState::Read;
                true
            },
            RwState::Read => true,
            RwState::Write => true,
        }
    }

    /// Try to move this handle to Write mode. From Hold it takes the write
    /// claim, which succeeds exactly while the value is free; from Read it
    /// upgrades in place, which succeeds exactly while it is the sole
    /// reader; Write succeeds trivially. On failure nothing changes.
    /// Returns success — exactly what `is_writeable` reported.
    pub fn try_write_global<T>(&mut self, store: &mut RwStore<T>) -> (r: bool)
        requires
            old(self).valid(*old(store)),
            old(store).wf(),
        ensures
            final(store).wf(),
            final(self).cell == old(self).cell,
            r == old(self).spec_is_writeable(*old(store)),
            final(store).agrees_except(*old(store), old(self).cell as int),
            final(store).strong_at(old(self).cell as int) == old(store).strong_at(
                old(self).cell as int,
            ),
            final(store).val_at(old(self).cell as int) == old(store).val_at(
                old(self).cell as int,
            ),
            r ==> final(self).state is Write && final(self).valid(*final(store))
                && final(store).flag_at(old(self).cell as int) == usize::MAX,
            !r ==> final(self).state == old(self).state && final(store).flag_at(
                old(self).cell as int,
            ) == old(store).flag_at(old(self).cell as int) && final(self).valid(*final(store)),
    {
        let acquired: bool = match self.state {
            RwState::Hold => {
                let slot = &mut store.slots[self.cell];
                slot.flag.hold_to_write()
            },
            RwState::Read => {
                let slot = &mut store.slots[self.cell];
                slot.flag.read_to_write()
            },
            RwState::Write => true,
        };
        if acquired {
            self.state = RwState::Write;
        }
        acquired
    }

    /// Give back whatever claim this handle's mode records and move it to
    /// Hold. From Hold this is a no-op, so releasing twice is the same as
    /// releasing once; the flag transition is exactly `release_step`.
    pub fn release<T>(&mut self, store: &mut RwStore<T>)
        requires
            old(self).valid(*old(store)),
            old(store).wf(),
        ensures
            final(store).wf(),
            final(self).cell == old(self).cell,
            final(self).state is Hold,
            final(self).valid(*final(store)),
            final(store).agrees_except(*old(store), old(self).cell as int),
            final(store).strong_at(old(self).cell as int) == old(store).strong_at(
                old(self).cell as int,
            ),
            final(store).val_at(old(self).cell as int) == old(store).val_at(
                old(self).cell as int,
            ),
            (final(self).state, final(store).flag_at(old(self).cell as int)) == release_step(
                old(self).state,
                old(store).flag_at(old(self).cell as int),
            ),
    {
        match self.state {
            RwState::Hold => {},
            RwState::Read => {
                let slot = &mut store.slots[self.cell];
                slot.flag.read_to_hold();
            },
            RwState::Write => {
                let slot = &mut store.slots[self.cell];
                slot.flag.write_to_hold();
            },
        }
        self.state = RwState::Hold;
    }

    /// Clone the handle: one more strong owner of the same cell. A Read
    /// source registers one more read claim — which must succeed, since the
    /// source already proves readability — and the clone is in Read mode;
    /// a Hold or Write source yields a Hold clone with no flag change, so
    /// cloning never duplicates exclusive write access.
    pub fn clone<T>(&self, store: &mut RwStore<T>) -> (h: RwRc)
        requires
            self.valid(*old(store)),
            old(store).wf(),
            old(store).strong_at(self.cell as int) < usize::MAX,
            self.state is Read ==> old(store).flag_at(self.cell as int) != usize::MAX - 1,
        ensures
            final(store).wf(),
            h.cell == self.cell,
            h.valid(*final(store)),
            self.valid(*final(store)),
            final(store).agrees_except(*old(store), self.cell as int),
            final(store).strong_at(self.cell as int) == old(store).strong_at(self.cell as int)
                + 1,
            final(store).val_at(self.cell as int) == old(store).val_at(self.cell as int),
            self.state is Read ==> h.state is Read && final(store).flag_at(self.cell as int)
                == old(store).flag_at(self.cell as int) + 1,
            !(self.state is Read) ==> h.state is Hold && final(store).flag_at(self.cell as int)
                == old(store).flag_at(self.cell as int),
    {
        let slot = &mut store.slots[self.cell];
        slot.strong = slot.strong + 1;
        match self.state {
            RwState::Read => {
                slot.flag.hold_to_read();
                RwRc { cell: self.cell, state: RwState::Read }
            },
            RwState::Hold => RwRc { cell: self.cell, state: RwState::Hold },
            RwState::Write => RwRc { cell: self.cell, state: RwState::Hold },
        }
    }

    /// Drop the handle: release its claim, then give up its strong share.
    /// The last strong handle destroys the payload; the slot stays behind
    /// dead, so weak handles keep probing safely.
    pub fn drop_handle<T>(self, store: &mut RwStore<T>)
        requires
            self.valid(*old(store)),
            old(store).wf(),
        ensures
            final(store).wf(),
            final(store).agrees_except(*old(store), self.cell as int),
            final(store).n_slots() == old(store).n_slots(),
            final(store).strong_at(self.cell as int) == old(store).strong_at(self.cell as int)
                - 1,
            final(store).flag_at(self.cell as int) == release_step(
                self.state,
                old(store).flag_at(self.cell as int),
            ).1,
            old(store).strong_at(self.cell as int) == 1 ==> !final(store).live(self.cell as int)
                && final(store).val_at(self.cell as int) is None,
            old(store).strong_at(self.cell as int) > 1 ==> final(store).live(self.cell as int)
                && final(store).val_at(self.cell as int) == old(store).val_at(self.cell as int),
    {
        let mut h = self;
        h.release(store);
        let slot = &mut store.slots[h.cell];
        slot.strong = slot.strong - 1;
        if slot.strong == 0 {
            slot.val = None;
        }
    }
}

/// What `release` does to a handle's mode and its cell's flag: a Read
/// claim is given back (counter `- 1`), the Write claim frees the value,
/// and Hold changes nothing.
pub open spec fn release_step(state: RwState, flag: usize) -> (RwState, usize) {
    match state {
        RwState::Hold => (RwState::Hold, flag),
        RwState::Read => (RwState::Hold, (flag - 1) as usize),
        RwState::Write => (RwState::Hold, 0),
    }
}

/// Releasing is idempotent: a second release finds the handle in Hold
/// mode and is a no-op, so it lands on the very same mode and flag.
pub proof fn lemma_release_idempotent(state: RwState, flag: usize)
    ensures
        release_step(release_step(state, flag).0, release_step(state, flag).1) == release_step(
            state,
            flag,
        ),
{
}

/// A freshly wrapped value's handle — Read mode over a sole-reader flag —
/// reports both readable and writable.
pub proof fn lemma_fresh_handle_readable_writable<T>(h: RwRc, store: RwStore<T>)
    requires
        h.state is Read,
        store.flag_at(h.cell as int) == 1,
    ensures
        h.spec_is_readable(store),
        h.spec_is_writeable(store),
{
}

} // verus!

