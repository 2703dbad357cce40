//! The bounded buffer the OAM scan fills: at most ten objects per
//! scanline, kept in OAM order.  The buffer is `arrayvec`'s inline
//! vector; its contents are named by an uninterpreted sequence that the
//! trusted wrappers below relate across the calls.

use vstd::prelude::*;

use arrayvec::ArrayVec;

verus! {

#[verifier::external_type_specification]
#[verifier::external_body]
#[verifier::reject_recursive_types(T)]
pub struct ExArrayVec<T, const CAP: usize>(ArrayVec<T, CAP>);

/// One collected object as plain bytes: `(y, x, tile, attributes)`.
pub type ObjEntry = (u8, u8, u8, u8);

/// The items an object buffer holds, oldest first.
pub uninterp spec fn oam_buf_items(v: ArrayVec<ObjEntry, 10>) -> Seq<ObjEntry>;

/// Relies on `arrayvec::ArrayVec::new`: a fresh vector is empty.
#[verifier::external_body]
pub fn oam_buf_new() -> (r: ArrayVec<ObjEntry, 10>)
    ensures
        oam_buf_items(r) == Seq::<ObjEntry>::empty(),
{
    ArrayVec::new()
}

/// Relies on `arrayvec::ArrayVec::push`: appends one element; it panics
/// only on a full vector, which the precondition rules out.
#[verifier::external_body]
pub fn oam_buf_push(v: &mut ArrayVec<ObjEntry, 10>, e: ObjEntry)
    requires
        oam_buf_items(*old(v)).len() < 10,
    ensures
        oam_buf_items(*final(v)) == oam_buf_items(*old(v)).push(e),
{
    v.push(e);
}

/// Relies on `arrayvec::ArrayVec::len`: the number of elements held.
#[verifier::external_body]
pub fn oam_buf_len(v: &ArrayVec<ObjEntry, 10>) -> (r: usize)
    ensures
        r == oam_buf_items(*v).len(),
        r <= 10,
{
    v.len()
}

/// Relies on `arrayvec::ArrayVec`'s slice view (`Deref`): the element at
/// an in-range index.
#[verifier::external_body]
pub fn oam_buf_get(v: &ArrayVec<ObjEntry, 10>, i: usize) -> (r: ObjEntry)
    requires
        i < oam_buf_items(*v).len(),
    ensures
        r == oam_buf_items(*v)[i as int],
{
    v[i]
}

} // verus!
