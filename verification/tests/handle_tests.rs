use rwrc::{RwRc, RwState, RwStore};

#[test]
fn test_new() {
    let mut s: RwStore<i32> = RwStore::new();
    let rc = RwRc::new(&mut s, 42);
    assert!(matches!(rc.state, RwState::Read));
    assert!(rc.is_readable(&s));
    assert!(rc.is_writeable(&s));
}

#[test]
fn test_clone() {
    let mut s: RwStore<i32> = RwStore::new();
    let rc1 = RwRc::new(&mut s, 42);
    let rc2 = rc1.clone(&mut s);

    // cloning a Read-mode handle yields a Read-mode clone
    assert!(matches!(rc1.state, RwState::Read));
    assert!(matches!(rc2.state, RwState::Read));

    // a fresh handle released to Hold
    let mut rc3 = RwRc::new(&mut s, 100);
    rc3.release(&mut s);
    assert!(matches!(rc3.state, RwState::Hold));

    // cloning a Hold-mode handle yields a Hold-mode clone
    let rc4 = rc3.clone(&mut s);
    assert!(matches!(rc4.state, RwState::Hold));
}

#[test]
fn test_try_read_global() {
    let mut s: RwStore<i32> = RwStore::new();
    let mut rc1 = RwRc::new(&mut s, 42);
    rc1.release(&mut s);

    // take the read claim
    assert!(rc1.try_read_global(&mut s));
    assert!(matches!(rc1.state, RwState::Read));
    assert!(rc1.is_readable(&s));

    // already in Read mode: succeeds again
    assert!(rc1.try_read_global(&mut s));

    // a second handle, released to Hold
    let mut rc2 = rc1.clone(&mut s);
    rc2.release(&mut s);

    // rc1 reads, so rc2 cannot take the write claim
    assert!(!rc2.try_write_global(&mut s));

    // rc1 gives its read claim back
    rc1.release(&mut s);

    // now rc2 can take the write claim
    assert!(rc2.try_write_global(&mut s));
    assert!(matches!(rc2.state, RwState::Write));

    // while rc2 writes, rc1 cannot take a read claim
    assert!(!rc1.try_read_global(&mut s));
}

#[test]
fn test_try_write_global() {
    let mut s: RwStore<i32> = RwStore::new();
    let mut rc1 = RwRc::new(&mut s, 42);
    rc1.release(&mut s);

    // take the write claim
    assert!(rc1.try_write_global(&mut s));
    assert!(matches!(rc1.state, RwState::Write));
    assert!(rc1.is_readable(&s));
    assert!(rc1.is_writeable(&s));

    // a clone of a writing handle holds no claim
    let mut rc2 = rc1.clone(&mut s);

    // while rc1 writes, rc2 can take neither claim
    assert!(!rc2.try_read_global(&mut s));
    assert!(!rc2.try_write_global(&mut s));

    // rc1 gives the write claim back
    rc1.release(&mut s);

    // now rc2 can take a read claim
    assert!(rc2.try_read_global(&mut s));
    assert!(matches!(rc2.state, RwState::Read));

    // one more handle
    let mut rc3 = rc1.clone(&mut s);

    // while rc2 reads, rc3 may read too but may not write
    assert!(rc3.try_read_global(&mut s));
    rc3.release(&mut s);
    assert!(!rc3.try_write_global(&mut s));
}

#[test]
fn test_drop() {
    let mut s: RwStore<i32> = RwStore::new();
    let mut rc1 = RwRc::new(&mut s, 42);

    {
        let mut rc2 = rc1.clone(&mut s);
        rc1.release(&mut s);

        // rc2 takes the write claim
        assert!(rc2.try_write_global(&mut s));
        assert!(matches!(rc2.state, RwState::Write));

        // rc1 cannot take a read claim meanwhile
        assert!(!rc1.try_read_global(&mut s));

        // dropping rc2 gives its write claim back
        rc2.drop_handle(&mut s);
    }

    // after the drop, rc1 can take a read claim again
    assert!(rc1.try_read_global(&mut s));
    assert!(matches!(rc1.state, RwState::Read));
}

#[test]
fn lib_test_multiple_readers() {
    let mut s: RwStore<i32> = RwStore::new();
    let mut rc1 = RwRc::new(&mut s, 42);
    let mut rc2 = rc1.clone(&mut s);
    let mut rc3 = rc1.clone(&mut s);

    // everyone gives their claims back
    rc1.release(&mut s);
    rc2.release(&mut s);
    rc3.release(&mut s);

    // all three can take read claims
    assert!(rc1.try_read_global(&mut s));
    assert!(rc2.try_read_global(&mut s));
    assert!(rc3.try_read_global(&mut s));

    // but none of them can take the write claim
    rc1.release(&mut s);
    assert!(!rc1.try_write_global(&mut s));

    // once every reader released, the write claim is free
    rc2.release(&mut s);
    rc3.release(&mut s);
    assert!(rc1.try_write_global(&mut s));
}

#[test]
fn test_from() {
    // from an integer
    let mut s: RwStore<i32> = RwStore::new();
    let rc = RwRc::from(&mut s, 42);
    assert!(matches!(rc.state, RwState::Read));
    assert!(rc.is_readable(&s));

    // from a string
    let mut strings: RwStore<String> = RwStore::new();
    let rc = RwRc::from(&mut strings, String::from("test"));
    assert!(matches!(rc.state, RwState::Read));
    assert!(rc.is_readable(&strings));

    // explicit call once more
    let rc = RwRc::from(&mut s, 100);
    assert!(matches!(rc.state, RwState::Read));
    assert!(rc.is_readable(&s));
}

#[test]
fn test_hold() {
    let mut s: RwStore<i32> = RwStore::new();
    let mut rc = RwRc::new(&mut s, 42);
    assert!(rc.is_readable(&s)); // fresh handle is in Read mode

    rc.release(&mut s);
    assert!(s.flag_of(rc.cell).is_readable()); // the shared flag allows reading
    assert!(rc.is_readable(&s)); // Hold defers to the flag: readable
    assert!(rc.is_writeable(&s)); // Hold and the value is free: writable
    assert!(rc.try_read_global(&mut s)); // and a read claim can be taken
}
