//! The reference-counted handle discipline over the simulated object table.

use d1d1test::comptr::{ComPtr, ObjectTable};

#[test]
fn adopt_starts_with_one_reference() {
    let mut t = ObjectTable::new();
    assert_eq!(t.num_objects(), 0);
    let p = ComPtr::wrap_existing(&mut t);
    assert_eq!(t.num_objects(), 1);
    assert_eq!(t.ref_count(0), 1);
    assert!(!p.is_null());
    assert_eq!(p.ptr(), 0);
    p.release(&mut t);
    assert_eq!(t.ref_count(0), 0);
}

#[test]
fn share_increments_and_release_decrements() {
    let mut t = ObjectTable::new();
    let p = ComPtr::wrap_existing(&mut t);
    let q = p.share(&mut t);
    assert_eq!(t.ref_count(0), 2);
    let r = q.share(&mut t);
    assert_eq!(t.ref_count(0), 3);
    r.release(&mut t);
    assert_eq!(t.ref_count(0), 2);
    q.release(&mut t);
    assert_eq!(t.ref_count(0), 1);
    p.release(&mut t);
    assert_eq!(t.ref_count(0), 0);
}

#[test]
fn count_equals_live_handles_at_every_point() {
    // One adopted object, then a mixed sequence of shares and drops: the
    // simulated foreign count always equals the number of handles we hold.
    let mut t = ObjectTable::new();
    let mut held: Vec<ComPtr> = Vec::new();
    held.push(ComPtr::wrap_existing(&mut t));
    assert_eq!(t.ref_count(0) as usize, held.len());
    for _ in 0..5 {
        let next = held.last().unwrap().share(&mut t);
        held.push(next);
        assert_eq!(t.ref_count(0) as usize, held.len());
    }
    for _ in 0..3 {
        held.pop().unwrap().release(&mut t);
        assert_eq!(t.ref_count(0) as usize, held.len());
    }
    while let Some(h) = held.pop() {
        h.release(&mut t);
        assert_eq!(t.ref_count(0) as usize, held.len());
    }
    assert_eq!(t.ref_count(0), 0);
}

#[test]
fn empty_handle_release_is_a_no_op() {
    let mut t = ObjectTable::new();
    let _p = ComPtr::wrap_existing(&mut t);
    let empty = ComPtr::uninit();
    assert!(empty.is_null());
    empty.release(&mut t);
    assert_eq!(t.num_objects(), 1);
    assert_eq!(t.ref_count(0), 1);
}

#[test]
fn fill_slot_adopts_into_an_empty_slot() {
    let mut t = ObjectTable::new();
    let _first = ComPtr::wrap_existing(&mut t);
    let mut slot = ComPtr::uninit();
    slot.fill_slot(&mut t);
    assert!(!slot.is_null());
    assert_eq!(slot.ptr(), 1);
    assert_eq!(t.ref_count(1), 1);
}

#[test]
fn equality_is_identity_based() {
    let mut t = ObjectTable::new();
    let a = ComPtr::wrap_existing(&mut t);
    let b = ComPtr::wrap_existing(&mut t);
    let a2 = a.share(&mut t);
    assert!(a == a2);
    assert!(a != b);
    let empty1 = ComPtr::uninit();
    let empty2 = ComPtr::uninit();
    assert!(empty1 == empty2);
    assert!(empty1 != a);
}

#[test]
fn query_interface_adds_a_reference_to_the_same_object() {
    let mut t = ObjectTable::new();
    let p = ComPtr::wrap_existing(&mut t);
    let q = p.query_interface(&mut t, 0).unwrap();
    assert_eq!(t.ref_count(0), 2);
    assert!(q == p);
    q.release(&mut t);
    assert_eq!(t.ref_count(0), 1);
}

#[test]
fn query_interface_failure_changes_nothing() {
    let mut t = ObjectTable::new();
    let p = ComPtr::wrap_existing(&mut t);
    let r = p.query_interface(&mut t, -2147467262);
    assert_eq!(r.unwrap_err(), -2147467262);
    assert_eq!(t.ref_count(0), 1);
}
