//! The compressed sorted-integer set used for document-id sets.
use roaring::RoaringBitmap;
use vstd::prelude::*;

verus! {

#[verifier::external_type_specification]
#[verifier::external_body]
pub struct ExRoaringBitmap(RoaringBitmap);

/// The set of integers that a bitmap holds.
pub uninterp spec fn bitmap_members(b: RoaringBitmap) -> Set<u32>;

/// Relies on `RoaringBitmap::new`: the bitmap it creates is empty.
pub assume_specification[ RoaringBitmap::new ]() -> (r: RoaringBitmap)
    ensures
        bitmap_members(r) == Set::<u32>::empty(),
;

/// Relies on `RoaringBitmap::insert`: adds the value to the set and returns
/// whether it was absent before.
pub assume_specification[ RoaringBitmap::insert ](b: &mut RoaringBitmap, value: u32) -> (r: bool)
    ensures
        bitmap_members(*final(b)) == bitmap_members(*old(b)).insert(value),
        r == !bitmap_members(*old(b)).contains(value),
;

/// Relies on `RoaringBitmap::contains`: tells whether the value is in the set.
pub assume_specification[ RoaringBitmap::contains ](b: &RoaringBitmap, value: u32) -> (r: bool)
    ensures
        r == bitmap_members(*b).contains(value),
;

} // verus!
