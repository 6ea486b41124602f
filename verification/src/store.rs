use vstd::prelude::*;

use crate::error::PeekError;
use crate::shape::Subset;
use zarrs::array_subset::ArraySubset;

verus! {

#[verifier::external_type_specification]
#[verifier::external_body]
pub struct ExArraySubset(ArraySubset);

/// The per-dimension start offsets an `ArraySubset` holds.
pub uninterp spec fn subset_start(s: ArraySubset) -> Seq<u64>;

/// The per-dimension extents an `ArraySubset` holds.
pub uninterp spec fn subset_shape(s: ArraySubset) -> Seq<u64>;

/// Relies on ArraySubset::new_with_start_shape: it returns Ok exactly when
/// `start` and `shape` have the same length, and then holds both unchanged.
#[verifier::external_body]
fn new_array_subset(start: Vec<u64>, shape: Vec<u64>) -> (r: Option<ArraySubset>)
    ensures
        r is Some <==> start@.len() == shape@.len(),
        r matches Some(s) ==> subset_start(s) == start@ && subset_shape(s) == shape@,
{
    ArraySubset::new_with_start_shape(start, shape).ok()
}

/// Hand a resolved subset to the storage backend's own descriptor type,
/// keeping start and extent unchanged. A subset whose start and extent
/// describe different numbers of dimensions is an invariant violation and is
/// refused.
pub fn to_array_subset(subset: Subset) -> (r: Result<ArraySubset, PeekError>)
    ensures
        r is Ok <==> subset.consistent(),
        r matches Ok(s) ==> subset_start(s) == subset.start@ && subset_shape(s)
            == subset.extent@,
        r is Err ==> r == Err::<ArraySubset, PeekError>(PeekError::ShapeMismatch),
{
    let Subset { start, extent } = subset;
    match new_array_subset(start, extent) {
        Some(s) => Ok(s),
        None => Err(PeekError::ShapeMismatch),
    }
}

} // verus!
