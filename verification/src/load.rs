//! Creation of the drawing and text factories.
//!
//! A failed factory creation is fatal to startup and aborts the process
//! before the library is reached, so success is a precondition here: the
//! library's verified functions do not panic.

use vstd::prelude::*;
use crate::comptr::{ComPtr, ObjectTable};
use crate::util::succeeded;

verus! {

/// Creates the 2D drawing factory, adopting the factory call's reference.
pub fn create_d2d1_factory(table: &mut ObjectTable, hr: i32) -> (p: ComPtr)
    requires
        succeeded(hr),
        old(table).wf(),
        old(table).has_room(1),
    ensures
        final(table).wf(),
        final(table).counts() == old(table).counts().push(1u64),
        p.points_to(old(table).counts().len() as usize),
{
    ComPtr::wrap_existing(table)
}

/// Creates the text factory. The foreign call fills an empty slot through
/// an out-parameter, so the slot's emptiness contract is exercised here.
pub fn create_dwrite_factory(table: &mut ObjectTable, hr: i32) -> (p: ComPtr)
    requires
        succeeded(hr),
        old(table).wf(),
        old(table).has_room(1),
    ensures
        final(table).wf(),
        final(table).counts() == old(table).counts().push(1u64),
        p.points_to(old(table).counts().len() as usize),
{
    let mut factory = ComPtr::uninit();
    factory.fill_slot(table);
    factory
}

} // verus!
