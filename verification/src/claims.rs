//! The accounting law behind the flag encoding.
//!
//! A claim is one registered read or write hold, whether a handle's mode
//! or a scoped guard carries it. `claims_tracked` says the counter reads
//! back the outstanding claims: either no writer and the counter counts
//! the readers, or the sentinel and exactly one writer with no readers.
//! The lemmas below show that every transition the flag permits preserves
//! this correspondence, and that exclusion follows from it.
//!
//! The second half counts the claims off the claimholders themselves: a
//! sequence of modes, one per handle or scoped borrow of a cell, with one
//! `lemma_handles_*` step for each operation of the library — wrapping,
//! claiming, upgrading, releasing, cloning, joining and leaving. Chained
//! along any interleaving of operations, they show the counter always
//! reads back what the claimholders hold, so `lemma_handles_exclusive`
//! holds at every instant.

use vstd::prelude::*;

use crate::RwState;

verus! {

/// The flag counter `flag` faithfully records `readers` read claims and
/// `writers` write claims.
pub open spec fn claims_tracked(flag: usize, readers: nat, writers: nat) -> bool {
    if writers == 0 {
        readers == flag && flag != usize::MAX
    } else {
        writers == 1 && readers == 0 && flag == usize::MAX
    }
}

/// At any instant, either there is no writer (and any number of readers),
/// or exactly one writer and no readers — never both.
pub proof fn lemma_claims_exclusive(flag: usize, readers: nat, writers: nat)
    requires
        claims_tracked(flag, readers, writers),
    ensures
        writers <= 1,
        writers == 1 ==> readers == 0,
{
}

/// A freshly wrapped value starts with one read claim and a counter of 1.
pub proof fn lemma_new_read_tracked()
    ensures
        claims_tracked(1, 1, 0),
{
}

/// Registering a read claim (counter `+ 1`, allowed while no writer holds
/// the value and the counter has room) keeps the accounting faithful.
pub proof fn lemma_acquire_read_tracked(flag: usize, readers: nat, writers: nat)
    requires
        claims_tracked(flag, readers, writers),
        flag < usize::MAX - 1,
    ensures
        claims_tracked((flag + 1) as usize, readers + 1, writers),
{
}

/// Giving back a read claim (counter `- 1`) keeps the accounting faithful;
/// a reader to give it back really exists.
pub proof fn lemma_release_read_tracked(flag: usize, readers: nat, writers: nat)
    requires
        claims_tracked(flag, readers, writers),
        1 <= flag < usize::MAX,
    ensures
        readers >= 1,
        claims_tracked((flag - 1) as usize, (readers - 1) as nat, writers),
{
}

/// Taking the write claim from the free state: no claim existed before,
/// and exactly one writer exists after.
pub proof fn lemma_acquire_write_tracked(flag: usize, readers: nat, writers: nat)
    requires
        claims_tracked(flag, readers, writers),
        flag == 0,
    ensures
        readers == 0 && writers == 0,
        claims_tracked(usize::MAX, 0, 1),
{
}

/// Upgrading the sole read claim to the write claim: the one reader
/// becomes the one writer, never passing through the free state.
pub proof fn lemma_upgrade_tracked(flag: usize, readers: nat, writers: nat)
    requires
        claims_tracked(flag, readers, writers),
        flag == 1,
    ensures
        readers == 1 && writers == 0,
        claims_tracked(usize::MAX, 0, 1),
{
}

/// Giving back the write claim to the free state leaves no claims.
pub proof fn lemma_release_write_to_free_tracked(flag: usize, readers: nat, writers: nat)
    requires
        claims_tracked(flag, readers, writers),
        flag == usize::MAX,
    ensures
        writers == 1 && readers == 0,
        claims_tracked(0, 0, 0),
{
}

/// Giving back the write claim while keeping one read claim: the one
/// writer becomes the one reader.
pub proof fn lemma_release_write_to_read_tracked(flag: usize, readers: nat, writers: nat)
    requires
        claims_tracked(flag, readers, writers),
        flag == usize::MAX,
    ensures
        writers == 1 && readers == 0,
        claims_tracked(1, 1, 0),
{
}

/// A counter of 1 means exactly one read claim and no writer: the sole
/// reader, and only the sole reader, may upgrade in place.
pub proof fn lemma_sole_reader_tracked(flag: usize, readers: nat, writers: nat)
    requires
        claims_tracked(flag, readers, writers),
    ensures
        (flag == 1) <==> (readers == 1 && writers == 0),
{
}

/// 1 if this mode carries a read claim.
pub open spec fn mode_reads(m: RwState) -> nat {
    if m is Read {
        1
    } else {
        0
    }
}

/// 1 if this mode carries the write claim.
pub open spec fn mode_writes(m: RwState) -> nat {
    if m is Write {
        1
    } else {
        0
    }
}

/// How many of these claimholders hold a read claim. An element of `ms`
/// is one claimholder of a single cell: a handle's mode, or the transient
/// claim of a scoped borrow.
pub open spec fn read_claims(ms: Seq<RwState>) -> nat
    decreases ms.len(),
{
    if ms.len() == 0 {
        0
    } else {
        read_claims(ms.drop_last()) + mode_reads(ms.last())
    }
}

/// How many of these claimholders hold the write claim.
pub open spec fn write_claims(ms: Seq<RwState>) -> nat
    decreases ms.len(),
{
    if ms.len() == 0 {
        0
    } else {
        write_claims(ms.drop_last()) + mode_writes(ms.last())
    }
}

/// The flag counter of one cell faithfully records the claims of the N
/// claimholders sharing it.
pub open spec fn handles_tracked(flag: usize, ms: Seq<RwState>) -> bool {
    claims_tracked(flag, read_claims(ms), write_claims(ms))
}

/// Changing one claimholder's mode changes the read-claim count by
/// exactly the difference the two modes carry.
pub proof fn lemma_read_claims_update(ms: Seq<RwState>, k: int, m: RwState)
    requires
        0 <= k < ms.len(),
    ensures
        read_claims(ms.update(k, m)) + mode_reads(ms[k]) == read_claims(ms) + mode_reads(m),
    decreases ms.len(),
{
    if k == ms.len() - 1 {
        assert(ms.update(k, m).drop_last() =~= ms.drop_last());
    } else {
        assert(ms.update(k, m).drop_last() =~= ms.drop_last().update(k, m));
        lemma_read_claims_update(ms.drop_last(), k, m);
    }
}

/// Changing one claimholder's mode changes the write-claim count by
/// exactly the difference the two modes carry.
pub proof fn lemma_write_claims_update(ms: Seq<RwState>, k: int, m: RwState)
    requires
        0 <= k < ms.len(),
    ensures
        write_claims(ms.update(k, m)) + mode_writes(ms[k]) == write_claims(ms) + mode_writes(m),
    decreases ms.len(),
{
    if k == ms.len() - 1 {
        assert(ms.update(k, m).drop_last() =~= ms.drop_last());
    } else {
        assert(ms.update(k, m).drop_last() =~= ms.drop_last().update(k, m));
        lemma_write_claims_update(ms.drop_last(), k, m);
    }
}

/// A new claimholder adds exactly the claims its mode carries.
pub proof fn lemma_claims_push(ms: Seq<RwState>, m: RwState)
    ensures
        read_claims(ms.push(m)) == read_claims(ms) + mode_reads(m),
        write_claims(ms.push(m)) == write_claims(ms) + mode_writes(m),
{
    assert(ms.push(m).drop_last() =~= ms);
}

/// A leaving claimholder takes exactly the claims its mode carries.
pub proof fn lemma_claims_remove(ms: Seq<RwState>, k: int)
    requires
        0 <= k < ms.len(),
    ensures
        read_claims(ms.remove(k)) + mode_reads(ms[k]) == read_claims(ms),
        write_claims(ms.remove(k)) + mode_writes(ms[k]) == write_claims(ms),
    decreases ms.len(),
{
    if k == ms.len() - 1 {
        assert(ms.remove(k) =~= ms.drop_last());
    } else {
        assert(ms.remove(k).drop_last() =~= ms.drop_last().remove(k));
        lemma_claims_remove(ms.drop_last(), k);
    }
}

/// A claimholder in Read mode really is counted.
pub proof fn lemma_reader_counted(ms: Seq<RwState>, k: int)
    requires
        0 <= k < ms.len(),
        ms[k] is Read,
    ensures
        read_claims(ms) >= 1,
    decreases ms.len(),
{
    if k < ms.len() - 1 {
        lemma_reader_counted(ms.drop_last(), k);
    }
}

/// A claimholder in Write mode really is counted.
pub proof fn lemma_writer_counted(ms: Seq<RwState>, k: int)
    requires
        0 <= k < ms.len(),
        ms[k] is Write,
    ensures
        write_claims(ms) >= 1,
    decreases ms.len(),
{
    if k < ms.len() - 1 {
        lemma_writer_counted(ms.drop_last(), k);
    }
}

/// Among the claimholders of one cell, either none writes, or exactly one
/// writes and none reads — never both, whatever sequence of claims and
/// releases led here.
pub proof fn lemma_handles_exclusive(flag: usize, ms: Seq<RwState>)
    requires
        handles_tracked(flag, ms),
    ensures
        write_claims(ms) <= 1,
        write_claims(ms) == 1 ==> read_claims(ms) == 0,
{
}

/// Wrapping a value starts the cell with one claimholder in Read mode and
/// a counter of 1, which is faithful accounting.
pub proof fn lemma_handles_new()
    ensures
        handles_tracked(1, seq![RwState::Read]),
{
    let ms = seq![RwState::Read];
    assert(ms.drop_last() =~= Seq::<RwState>::empty());
    assert(read_claims(ms.drop_last()) == 0);
    assert(write_claims(ms.drop_last()) == 0);
    assert(ms.last() == RwState::Read);
}

/// Claimholder `k` in Hold mode takes a read claim: the counter steps up
/// by one and the mode becomes Read; the accounting stays faithful.
pub proof fn lemma_handles_acquire_read(flag: usize, ms: Seq<RwState>, k: int)
    requires
        handles_tracked(flag, ms),
        0 <= k < ms.len(),
        ms[k] is Hold,
        flag != usize::MAX,
        flag != usize::MAX - 1,
    ensures
        handles_tracked((flag + 1) as usize, ms.update(k, RwState::Read)),
{
    lemma_read_claims_update(ms, k, RwState::Read);
    lemma_write_claims_update(ms, k, RwState::Read);
    lemma_acquire_read_tracked(flag, read_claims(ms), write_claims(ms));
}

/// Claimholder `k` in Read mode gives its claim back: the counter steps
/// down by one and the mode becomes Hold; the accounting stays faithful.
pub proof fn lemma_handles_release_read(flag: usize, ms: Seq<RwState>, k: int)
    requires
        handles_tracked(flag, ms),
        0 <= k < ms.len(),
        ms[k] is Read,
    ensures
        1 <= flag < usize::MAX,
        handles_tracked((flag - 1) as usize, ms.update(k, RwState::Hold)),
{
    lemma_reader_counted(ms, k);
    lemma_read_claims_update(ms, k, RwState::Hold);
    lemma_write_claims_update(ms, k, RwState::Hold);
    lemma_release_read_tracked(flag, read_claims(ms), write_claims(ms));
}

/// Claimholder `k` in Hold mode takes the write claim from the free
/// state: no claim existed, and afterwards `k` holds the only one.
pub proof fn lemma_handles_acquire_write(flag: usize, ms: Seq<RwState>, k: int)
    requires
        handles_tracked(flag, ms),
        0 <= k < ms.len(),
        ms[k] is Hold,
        flag == 0,
    ensures
        read_claims(ms) == 0 && write_claims(ms) == 0,
        handles_tracked(usize::MAX, ms.update(k, RwState::Write)),
{
    lemma_read_claims_update(ms, k, RwState::Write);
    lemma_write_claims_update(ms, k, RwState::Write);
}

/// Claimholder `k`, the sole reader, upgrades in place: its read claim
/// becomes the write claim without the value ever being free.
pub proof fn lemma_handles_upgrade(flag: usize, ms: Seq<RwState>, k: int)
    requires
        handles_tracked(flag, ms),
        0 <= k < ms.len(),
        ms[k] is Read,
        flag == 1,
    ensures
        read_claims(ms) == 1 && write_claims(ms) == 0,
        handles_tracked(usize::MAX, ms.update(k, RwState::Write)),
{
    lemma_read_claims_update(ms, k, RwState::Write);
    lemma_write_claims_update(ms, k, RwState::Write);
}

/// Claimholder `k` in Write mode gives the write claim back: it held the
/// only claim, and afterwards the value is free.
pub proof fn lemma_handles_release_write(flag: usize, ms: Seq<RwState>, k: int)
    requires
        handles_tracked(flag, ms),
        0 <= k < ms.len(),
        ms[k] is Write,
    ensures
        flag == usize::MAX,
        read_claims(ms) == 0 && write_claims(ms) == 1,
        handles_tracked(0, ms.update(k, RwState::Hold)),
{
    lemma_writer_counted(ms, k);
    lemma_read_claims_update(ms, k, RwState::Hold);
    lemma_write_claims_update(ms, k, RwState::Hold);
}

/// Cloning claimholder `k` in Read mode adds a claimholder in Read mode
/// and steps the counter up by one; the accounting stays faithful.
pub proof fn lemma_handles_clone_read(flag: usize, ms: Seq<RwState>, k: int)
    requires
        handles_tracked(flag, ms),
        0 <= k < ms.len(),
        ms[k] is Read,
        flag != usize::MAX - 1,
    ensures
        handles_tracked((flag + 1) as usize, ms.push(RwState::Read)),
{
    lemma_reader_counted(ms, k);
    lemma_claims_push(ms, RwState::Read);
    lemma_acquire_read_tracked(flag, read_claims(ms), write_claims(ms));
}

/// Cloning a Hold- or Write-mode claimholder, or upgrading a weak handle,
/// adds a claimholder in Hold mode: no claim, no counter change.
pub proof fn lemma_handles_join_hold(flag: usize, ms: Seq<RwState>)
    requires
        handles_tracked(flag, ms),
    ensures
        handles_tracked(flag, ms.push(RwState::Hold)),
{
    lemma_claims_push(ms, RwState::Hold);
}

/// A claimholder that released its claim (mode Hold) may leave: dropping
/// it changes no count and keeps the accounting faithful.
pub proof fn lemma_handles_leave_hold(flag: usize, ms: Seq<RwState>, k: int)
    requires
        handles_tracked(flag, ms),
        0 <= k < ms.len(),
        ms[k] is Hold,
    ensures
        handles_tracked(flag, ms.remove(k)),
{
    lemma_claims_remove(ms, k);
}

} // verus!
