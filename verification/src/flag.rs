//! The shared read/write flag: one unsigned counter per shared value.
//!
//! Encoding: `0` = free (no reader, no writer); `1` = exactly one reader,
//! which may upgrade to writer in place; `n >= 2` = `n` readers; `usize::MAX`
//! (the sentinel) = one exclusive writer.

use vstd::prelude::*;

verus! {

/// The shared read/write state of one value, as seen by every handle to it.
#[derive(Clone, Copy, Debug)]
pub struct RwFlag {
    /// Number of registered read claims, or `usize::MAX` for one writer.
    pub count: usize,
}

impl RwFlag {
    /// A flag with exactly one read claim already registered.
    pub fn new_read() -> (r: RwFlag)
        ensures
            r.count == 1,
    {
        RwFlag { count: 1 }
    }

    /// The value can be read: no exclusive writer holds it.
    pub fn is_readable(&self) -> (r: bool)
        ensures
            r == (self.count != usize::MAX),
    {
        self.count != usize::MAX
    }

    /// A handle already holding one read claim could become the writer:
    /// the counter shows at most that one claim.
    pub fn is_this_writeable(&self) -> (r: bool)
        ensures
            r == (self.count == 0 || self.count == 1),
    {
        self.count == 0 || self.count == 1
    }

    /// The value is free, so a write claim could be taken at once.
    pub fn is_writeable(&self) -> (r: bool)
        ensures
            r == (self.count == 0),
    {
        self.count == 0
    }

    /// Register one more read claim. Fails, leaving the counter unchanged,
    /// exactly when a writer holds the value.
    ///
    /// The counter must have room for one more reader: `usize::MAX - 1`
    /// readers is the capacity of the encoding, since `usize::MAX` is the
    /// writer sentinel.
    pub fn hold_to_read(&mut self) -> (r: bool)
        requires
            old(self).count != usize::MAX - 1,
        ensures
            r == (old(self).count != usize::MAX),
            r ==> final(self).count == old(self).count + 1,
            !r ==> final(self).count == old(self).count,
    {
        if self.count == usize::MAX {
            false
        } else {
            self.count = self.count + 1;
            true
        }
    }

    /// Take the write claim. Succeeds exactly when the value is free,
    /// setting the sentinel; otherwise the counter is unchanged.
    pub fn hold_to_write(&mut self) -> (r: bool)
        ensures
            r == (old(self).count == 0),
            r ==> final(self).count == usize::MAX,
            !r ==> final(self).count == old(self).count,
    {
        if self.count == 0 {
            self.count = usize::MAX;
            true
        } else {
            false
        }
    }

    /// Convert the sole read claim into the write claim, without passing
    /// through the free state. Succeeds exactly when the counter is 1;
    /// otherwise the counter is unchanged.
    pub fn read_to_write(&mut self) -> (r: bool)
        ensures
            r == (old(self).count == 1),
            r ==> final(self).count == usize::MAX,
            !r ==> final(self).count == old(self).count,
    {
        if self.count == 1 {
            self.count = usize::MAX;
            true
        } else {
            false
        }
    }

    /// Give back one read claim. The caller must hold one: the counter is
    /// in `[1, usize::MAX - 1]`.
    pub fn read_to_hold(&mut self)
        requires
            1 <= old(self).count < usize::MAX,
        ensures
            final(self).count == old(self).count - 1,
    {
        self.count = self.count - 1;
    }

    /// Give back the write claim, leaving the value free. The caller must
    /// hold it: the counter is the sentinel.
    pub fn write_to_hold(&mut self)
        requires
            old(self).count == usize::MAX,
        ensures
            final(self).count == 0,
    {
        self.count = 0;
    }

    /// Give back the write claim but keep one read claim, so the releaser
    /// stays a registered reader. The caller must hold the write claim.
    pub fn write_to_read(&mut self)
        requires
            old(self).count == usize::MAX,
        ensures
            final(self).count == 1,
    {
        self.count = 1;
    }
}

} // verus!
