//! The device-creation dependency chain: strict order, short-circuit on
//! failure, exact error propagation.

use d1d1test::comptr::ObjectTable;
use d1d1test::dcomp::{create_device_chain, ChainScript};

fn ok_script() -> ChainScript {
    ChainScript { hr_d3d11: 0, hr_query_dxgi: 0, hr_d2d1: 0, hr_dcomp: 0 }
}

#[test]
fn chain_success_creates_three_devices() {
    let mut t = ObjectTable::new();
    let (d3d11, d2d1, dcomp) = create_device_chain(&mut t, ok_script()).unwrap();
    assert_eq!(t.num_objects(), 3);
    assert_eq!(t.ref_count(0), 1);
    assert_eq!(t.ref_count(1), 1);
    assert_eq!(t.ref_count(2), 1);
    d3d11.release(&mut t);
    d2d1.release(&mut t);
    dcomp.release(&mut t);
    assert_eq!(t.ref_count(0), 0);
    assert_eq!(t.ref_count(1), 0);
    assert_eq!(t.ref_count(2), 0);
}

#[test]
fn stage_one_failure_aborts_before_anything_exists() {
    let mut t = ObjectTable::new();
    let s = ChainScript { hr_d3d11: -101, ..ok_script() };
    let e = create_device_chain(&mut t, s).unwrap_err();
    assert_eq!(e, -101);
    assert_eq!(t.num_objects(), 0);
}

#[test]
fn stage_two_failure_skips_stage_three_and_keeps_its_error() {
    // Only the stage-1 object was ever created; stage 3 was never invoked,
    // and the error is exactly the one stage 2 produced.
    let mut t = ObjectTable::new();
    let s = ChainScript { hr_d2d1: -202, ..ok_script() };
    let e = create_device_chain(&mut t, s).unwrap_err();
    assert_eq!(e, -202);
    assert_eq!(t.num_objects(), 1);
    assert_eq!(t.ref_count(0), 0);
}

#[test]
fn capability_query_failure_fails_stage_two_with_its_own_status() {
    let mut t = ObjectTable::new();
    let s = ChainScript { hr_query_dxgi: -203, ..ok_script() };
    let e = create_device_chain(&mut t, s).unwrap_err();
    assert_eq!(e, -203);
    assert_eq!(t.num_objects(), 1);
    assert_eq!(t.ref_count(0), 0);
}

#[test]
fn stage_three_failure_unwinds_the_first_two_stages() {
    let mut t = ObjectTable::new();
    let s = ChainScript { hr_dcomp: -303, ..ok_script() };
    let e = create_device_chain(&mut t, s).unwrap_err();
    assert_eq!(e, -303);
    assert_eq!(t.num_objects(), 2);
    assert_eq!(t.ref_count(0), 0);
    assert_eq!(t.ref_count(1), 0);
}
