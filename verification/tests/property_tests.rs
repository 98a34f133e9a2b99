use rwrc::{RwRc, RwState, RwStore};

// Across any interleaving of claims, either there is no writer and the
// flag counts the readers, or one writer and no readers — never both.
#[test]
fn test_readers_writer_exclusion() {
    let mut s: RwStore<i32> = RwStore::new();
    let mut h1 = RwRc::new(&mut s, 5);
    h1.release(&mut s);
    let mut h2 = h1.clone(&mut s);
    let mut h3 = h1.clone(&mut s);

    // two readers: counter is 2, no writer possible
    assert!(h1.try_read_global(&mut s));
    assert!(h2.try_read_global(&mut s));
    assert_eq!(s.flag_of(h1.cell).count, 2);
    assert!(!h3.try_write_global(&mut s));

    // all readers gone: the writer can enter
    h1.release(&mut s);
    h2.release(&mut s);
    assert!(h3.try_write_global(&mut s));
    assert_eq!(s.flag_of(h3.cell).count, usize::MAX);

    // while the writer holds the value, no reader can enter
    assert!(!h1.try_read_global(&mut s));
    assert!(!h2.try_read_global(&mut s));

    // writer gone: readers can enter again
    h3.release(&mut s);
    assert!(h1.try_read_global(&mut s));
    assert_eq!(s.flag_of(h1.cell).count, 1);
}

// A clone of a reading handle registers one more read claim; a clone of a
// holding or writing handle registers none.
#[test]
fn test_clone_counts() {
    let mut s: RwStore<i32> = RwStore::new();
    let mut h = RwRc::new(&mut s, 0);
    assert_eq!(s.flag_of(h.cell).count, 1);

    let c = h.clone(&mut s);
    assert!(matches!(c.state, RwState::Read));
    assert_eq!(s.flag_of(h.cell).count, 2);
    c.drop_handle(&mut s);
    assert_eq!(s.flag_of(h.cell).count, 1);

    h.release(&mut s);
    let c2 = h.clone(&mut s);
    assert!(matches!(c2.state, RwState::Hold));
    assert_eq!(s.flag_of(h.cell).count, 0);
    c2.drop_handle(&mut s);

    assert!(h.try_write_global(&mut s));
    let c3 = h.clone(&mut s);
    assert!(matches!(c3.state, RwState::Hold));
    assert_eq!(s.flag_of(h.cell).count, usize::MAX);
    c3.drop_handle(&mut s);
}

// Releasing twice is the same as releasing once, from every mode.
#[test]
fn test_release_idempotent() {
    let mut s: RwStore<i32> = RwStore::new();

    let mut h = RwRc::new(&mut s, 1); // Read mode
    h.release(&mut s);
    assert!(matches!(h.state, RwState::Hold));
    assert_eq!(s.flag_of(h.cell).count, 0);
    h.release(&mut s);
    assert!(matches!(h.state, RwState::Hold));
    assert_eq!(s.flag_of(h.cell).count, 0);

    assert!(h.try_write_global(&mut s)); // Write mode
    h.release(&mut s);
    assert!(matches!(h.state, RwState::Hold));
    assert_eq!(s.flag_of(h.cell).count, 0);
    h.release(&mut s);
    assert!(matches!(h.state, RwState::Hold));
    assert_eq!(s.flag_of(h.cell).count, 0);
}

// The sole reader can upgrade to the writer; a reader among two cannot.
#[test]
fn test_sole_reader_upgrade() {
    let mut s: RwStore<i32> = RwStore::new();
    let mut h1 = RwRc::new(&mut s, 3);
    assert_eq!(s.flag_of(h1.cell).count, 1);
    assert!(h1.try_write_global(&mut s));
    assert!(matches!(h1.state, RwState::Write));
    h1.release(&mut s);

    assert!(h1.try_read_global(&mut s));
    let mut h2 = h1.clone(&mut s);
    assert_eq!(s.flag_of(h1.cell).count, 2);
    assert!(!h1.try_write_global(&mut s));
    assert!(!h2.try_write_global(&mut s));
    assert!(matches!(h1.state, RwState::Read));
    assert!(matches!(h2.state, RwState::Read));
}

// Ending a scoped write borrow restores the exact pre-borrow state:
// prior Hold leaves the value free, prior Read leaves a single reader.
#[test]
fn test_scoped_write_restores() {
    let mut s: RwStore<i32> = RwStore::new();
    let mut h = RwRc::new(&mut s, 8);
    h.release(&mut s);
    assert_eq!(s.flag_of(h.cell).count, 0);

    // from Hold: the borrow frees the value again
    let g = h.try_write(&mut s).unwrap();
    assert_eq!(s.flag_of(h.cell).count, usize::MAX);
    g.end(&mut s);
    assert_eq!(s.flag_of(h.cell).count, 0);
    assert!(s.flag_of(h.cell).is_writeable());

    // from Read: the borrow leaves the single reader, not a free value
    assert!(h.try_read_global(&mut s));
    let g = h.try_write(&mut s).unwrap();
    assert_eq!(s.flag_of(h.cell).count, usize::MAX);
    g.end(&mut s);
    assert_eq!(s.flag_of(h.cell).count, 1);
    assert!(!s.flag_of(h.cell).is_writeable());
    assert!(s.flag_of(h.cell).is_this_writeable());
}

// Recovering from a weak handle works while a strong one lives, and the
// recovered handle reads the wrapped value; afterwards it fails.
#[test]
fn test_weak_upgrade_scenario() {
    let mut s: RwStore<i32> = RwStore::new();
    let h = RwRc::new(&mut s, 7);
    let w = h.weak();

    let up = w.hold(&mut s);
    assert!(up.is_some());
    let up = up.unwrap();
    let reader = up.read(&mut s);
    assert_eq!(*reader.value(&s), 7);
    reader.end(&mut s);
    up.drop_handle(&mut s);

    h.drop_handle(&mut s);
    assert!(w.hold(&mut s).is_none());
}

// Claims on one value never move another value's flag.
#[test]
fn test_independent_flags() {
    let mut s: RwStore<i32> = RwStore::new();
    let mut a = RwRc::new(&mut s, 1);
    let mut b = RwRc::new(&mut s, 2);

    // a takes the write claim of its own cell
    assert!(a.try_write_global(&mut s));
    assert_eq!(s.flag_of(a.cell).count, usize::MAX);

    // b's cell is untouched: still the single reader, still readable
    assert_eq!(s.flag_of(b.cell).count, 1);
    assert!(s.flag_of(b.cell).is_readable());
    b.release(&mut s);
    assert!(b.try_read_global(&mut s));
    assert_eq!(s.flag_of(b.cell).count, 1);

    // releasing a does not move b's flag either
    a.release(&mut s);
    assert_eq!(s.flag_of(a.cell).count, 0);
    assert_eq!(s.flag_of(b.cell).count, 1);
}

// The claim/release walk: two handles, one value.
#[test]
fn test_claim_sequence() {
    let mut s: RwStore<i32> = RwStore::new();
    let mut h1 = RwRc::new(&mut s, 10);
    assert!(matches!(h1.state, RwState::Read));
    let mut h2 = h1.clone(&mut s);
    assert!(matches!(h2.state, RwState::Read));

    h1.release(&mut s);
    assert!(matches!(h1.state, RwState::Hold));
    assert_eq!(s.flag_of(h1.cell).count, 1); // h2 still reads

    assert!(!h1.try_write_global(&mut s)); // blocked while h2 reads

    h2.release(&mut s);
    assert_eq!(s.flag_of(h1.cell).count, 0);

    assert!(h1.try_write_global(&mut s)); // now the claim is free
    assert!(matches!(h1.state, RwState::Write));
}

// Overwriting through a write borrow changes only the payload.
#[test]
fn test_set_value() {
    let mut s: RwStore<i32> = RwStore::new();
    let h = RwRc::new(&mut s, 4);
    let g = h.write(&mut s);
    assert_eq!(*g.value(&s), 4);
    g.set(&mut s, 9);
    assert_eq!(*g.value(&s), 9);
    g.end(&mut s);
    let r = h.read(&mut s);
    assert_eq!(*r.value(&s), 9);
    r.end(&mut s);
}
