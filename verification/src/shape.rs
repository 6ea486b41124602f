use vstd::prelude::*;

use crate::error::PeekError;

verus! {

/// A rectangular region of an N-dimensional array: a start offset and an
/// extent for each dimension.
#[derive(Debug, PartialEq, Eq)]
pub struct Subset {
    pub start: Vec<u64>,
    pub extent: Vec<u64>,
}

impl Subset {
    /// Start and extent describe one dimension each.
    pub open spec fn consistent(self) -> bool {
        self.start@.len() == self.extent@.len()
    }

    /// The subset lies within an array of the given shape.
    pub open spec fn within(self, shape: Seq<u64>) -> bool {
        &&& self.start@.len() == shape.len()
        &&& self.extent@.len() == shape.len()
        &&& forall|i: int| 0 <= i < shape.len() ==> self.start@[i] + self.extent@[i] <= shape[i]
    }
}

/// The smaller of two extents.
pub open spec fn min_u64(a: u64, b: u64) -> u64 {
    if a <= b {
        a
    } else {
        b
    }
}

/// The slice indices as a sequence; absent indices read as the empty sequence.
pub open spec fn indices_seq(slice_indices: Option<Vec<u64>>) -> Seq<u64> {
    match slice_indices {
        Option::Some(v) => v@,
        Option::None => Seq::empty(),
    }
}

/// The start offset the resolver assigns to dimension `i`: the provided index
/// for an indexed non-display dimension, the centered index for the rest of
/// the non-display dimensions, and zero for the two display dimensions.
pub open spec fn resolved_start(shape: Seq<u64>, idx: Seq<u64>, i: int) -> u64
    recommends
        0 <= i < shape.len(),
{
    if i < shape.len() - 2 {
        if i < idx.len() {
            idx[i]
        } else {
            shape[i] / 2
        }
    } else {
        0
    }
}

/// The extent the resolver assigns to dimension `i`: one for a non-display
/// dimension, and the full size capped at the crop size for a display
/// dimension.
pub open spec fn resolved_extent(shape: Seq<u64>, crop_size: u64, i: int) -> u64
    recommends
        0 <= i < shape.len(),
{
    if i < shape.len() - 2 {
        1
    } else {
        min_u64(crop_size, shape[i])
    }
}

/// Every provided index lies below its dimension's extent.
pub open spec fn indices_in_bounds(shape: Seq<u64>, idx: Seq<u64>) -> bool {
    forall|i: int| 0 <= i < idx.len() ==> idx[i] < shape[i]
}

/// The inputs on which the resolver succeeds: at least two dimensions, no
/// more indices than non-display dimensions, and every index in bounds.
pub open spec fn resolvable(shape: Seq<u64>, idx: Seq<u64>) -> bool {
    &&& shape.len() >= 2
    &&& idx.len() <= shape.len() - 2
    &&& indices_in_bounds(shape, idx)
}

/// Index `i` is the first provided index that is out of bounds.
pub open spec fn first_out_of_bounds(shape: Seq<u64>, idx: Seq<u64>, i: int) -> bool {
    &&& 0 <= i < idx.len()
    &&& idx[i] >= shape[i]
    &&& forall|j: int| 0 <= j < i ==> idx[j] < shape[j]
}

/// An array can be displayed only if it has both display axes.
pub fn ensure_at_least_2d(array_shape: &Vec<u64>) -> (r: Result<(), PeekError>)
    ensures
        r is Ok <==> array_shape@.len() >= 2,
        r is Err ==> r == Err::<(), PeekError>(PeekError::InvalidShape),
{
    if array_shape.len() < 2 {
        Err(PeekError::InvalidShape)
    } else {
        Ok(())
    }
}

/// Resolve which subset of the array to read: explicit or centered indices
/// for the non-display dimensions, and the full size capped at `crop_size`
/// for the two display dimensions.
pub fn resolve(
    array_shape: &Vec<u64>,
    slice_indices: &Option<Vec<u64>>,
    crop_size: u64,
) -> (r: Result<Subset, PeekError>)
    ensures
        r is Ok <==> resolvable(array_shape@, indices_seq(*slice_indices)),
        array_shape@.len() < 2 ==> r == Err::<Subset, PeekError>(PeekError::InvalidShape),
        array_shape@.len() >= 2 && indices_seq(*slice_indices).len() > array_shape@.len() - 2
            ==> r == (Err::<Subset, PeekError>(PeekError::TooManyIndices {
            expected: (array_shape@.len() - 2) as usize,
            provided: indices_seq(*slice_indices).len() as usize,
        })),
        array_shape@.len() >= 2 && indices_seq(*slice_indices).len() <= array_shape@.len() - 2
            && !indices_in_bounds(array_shape@, indices_seq(*slice_indices))
            ==> exists|i: int|
            first_out_of_bounds(array_shape@, indices_seq(*slice_indices), i) && r == (Err::<
                Subset,
                PeekError,
            >(PeekError::IndexOutOfBounds {
                index: indices_seq(*slice_indices)[i],
                dimension: i as usize,
            })),
        r matches Ok(s) ==> {
            let shape = array_shape@;
            let idx = indices_seq(*slice_indices);
            &&& s.start@.len() == shape.len()
            &&& s.extent@.len() == shape.len()
            &&& forall|i: int| #![trigger s.start@[i]]
                0 <= i < shape.len() ==> s.start@[i] == resolved_start(shape, idx, i)
            &&& forall|i: int| #![trigger s.extent@[i]]
                0 <= i < shape.len() ==> s.extent@[i] == resolved_extent(shape, crop_size, i)
        },
        r matches Ok(s) ==> (forall|d: int| #![trigger s.extent@[d]]
            array_shape@.len() - 2 <= d < array_shape@.len() ==> {
                &&& crop_size >= array_shape@[d] ==> s.extent@[d] == array_shape@[d]
                &&& crop_size < array_shape@[d] ==> s.extent@[d] == crop_size
            }),
        r matches Ok(s) ==> {
            let shape = array_shape@;
            let idx = indices_seq(*slice_indices);
            (forall|i: int| idx.len() <= i < shape.len() - 2 ==> shape[i] > 0) ==> s.within(shape)
        },
{
    let ghost shape = array_shape@;
    let ghost idx = indices_seq(*slice_indices);
    let n: usize = array_shape.len();
    if let Err(e) = ensure_at_least_2d(array_shape) {
        return Err(e);
    }
    let k: usize = n - 2;
    let mut start: Vec<u64> = Vec::new();
    if let Some(indices) = slice_indices {
        if indices.len() > k {
            return Err(PeekError::TooManyIndices { expected: k, provided: indices.len() });
        }
        let mut i: usize = 0;
        while i < indices.len()
            invariant
                idx == indices@,
                idx == indices_seq(*slice_indices),
                shape == array_shape@,
                i <= idx.len() <= k,
                k == shape.len() - 2,
                start@.len() == i,
                forall|j: int| 0 <= j < i ==> idx[j] < shape[j],
                forall|j: int| 0 <= j < i ==> start@[j] == idx[j],
            decreases indices@.len() - i,
        {
            if indices[i] >= array_shape[i] {
                proof {
                    assert(first_out_of_bounds(shape, idx, i as int));
                    assert(!indices_in_bounds(shape, idx));
                    assert(idx.len() <= shape.len() - 2);
                    assert(!resolvable(shape, idx));
                }
                return Err(PeekError::IndexOutOfBounds { index: indices[i], dimension: i });
            }
            start.push(indices[i]);
            i += 1;
        }
    }
    while start.len() < k
        invariant
            shape == array_shape@,
            k == shape.len() - 2,
            idx.len() <= start@.len() <= k,
            forall|j: int| 0 <= j < idx.len() ==> idx[j] < shape[j],
            forall|j: int| 0 <= j < idx.len() ==> start@[j] == idx[j],
            forall|j: int| idx.len() <= j < start@.len() ==> start@[j] == shape[j] / 2,
        decreases k - start@.len(),
    {
        let d: usize = start.len();
        start.push(array_shape[d] / 2);
    }
    start.push(0);
    start.push(0);
    let mut extent: Vec<u64> = Vec::new();
    let mut i: usize = 0;
    while i < n
        invariant
            shape == array_shape@,
            n == shape.len(),
            n >= 2,
            k == n - 2,
            i <= n,
            extent@.len() == i,
            forall|j: int| 0 <= j < i ==> extent@[j] == resolved_extent(shape, crop_size, j),
        decreases n - i,
    {
        if i < k {
            extent.push(1);
        } else {
            let full: u64 = array_shape[i];
            extent.push(if crop_size >= full {
                full
            } else {
                crop_size
            });
        }
        i += 1;
    }
    let s = Subset { start, extent };
    proof {
        assert forall|j: int| 0 <= j < shape.len() implies s.start@[j] == resolved_start(
            shape,
            idx,
            j,
        ) by {
            if j >= shape.len() - 2 {
                assert(s.start@[j] == 0);
            }
        }
        assert forall|j: int|
            0 <= j < shape.len() && (forall|m: int|
                idx.len() <= m < shape.len() - 2 ==> shape[m] > 0) implies s.start@[j]
            + s.extent@[j] <= shape[j] by {
            if j < shape.len() - 2 {
                if j >= idx.len() {
                    assert(shape[j] > 0);
                    assert(shape[j] / 2 + 1 <= shape[j]);
                }
            }
        }
    }
    Ok(s)
}

/// The two display extents of a resolved subset: its last two extents, owed
/// whenever every leading extent is one. A non-unit leading extent would make
/// collapsing the leading dimensions lossy, so it is refused.
pub fn display_dims(subset: &Subset) -> (r: Result<(u64, u64), PeekError>)
    ensures
        r is Ok <==> (subset.extent@.len() >= 2 && forall|i: int|
            0 <= i < subset.extent@.len() - 2 ==> subset.extent@[i] == 1),
        r matches Ok(d) ==> d.0 == subset.extent@[subset.extent@.len() - 2] && d.1
            == subset.extent@[subset.extent@.len() - 1],
        r matches Ok(d) ==> element_count(subset.extent@) == d.0 * d.1,
        r is Err ==> r == Err::<(u64, u64), PeekError>(PeekError::ShapeMismatch),
{
    let n: usize = subset.extent.len();
    if n < 2 {
        return Err(PeekError::ShapeMismatch);
    }
    let mut i: usize = 0;
    while i < n - 2
        invariant
            n == subset.extent@.len(),
            2 <= n,
            i <= n - 2,
            forall|j: int| 0 <= j < i ==> subset.extent@[j] == 1,
        decreases n - 2 - i,
    {
        if subset.extent[i] != 1 {
            return Err(PeekError::ShapeMismatch);
        }
        i += 1;
    }
    proof {
        lemma_unit_leading_count(subset.extent@);
    }
    Ok((subset.extent[n - 2], subset.extent[n - 1]))
}

/// The number of elements a subset holds: the product of its extents.
pub open spec fn element_count(extent: Seq<u64>) -> int
    decreases extent.len(),
{
    if extent.len() == 0 {
        1
    } else {
        extent[0] * element_count(extent.drop_first())
    }
}

/// A matrix of the two display extents holds every element of the subset:
/// when all leading extents are one, the product of all extents equals the
/// product of the last two.
pub proof fn lemma_unit_leading_count(extent: Seq<u64>)
    requires
        extent.len() >= 2,
        forall|i: int| 0 <= i < extent.len() - 2 ==> extent[i] == 1,
    ensures
        element_count(extent) == extent[extent.len() - 2] * extent[extent.len() - 1],
    decreases extent.len(),
{
    let tail = extent.drop_first();
    if extent.len() == 2 {
        let rest = tail.drop_first();
        assert(rest.len() == 0);
        assert(element_count(rest) == 1);
        assert(element_count(tail) == tail[0] * element_count(rest));
        assert(element_count(extent) == extent[0] * element_count(tail));
    } else {
        assert(forall|i: int| 0 <= i < tail.len() - 2 ==> tail[i] == 1);
        lemma_unit_leading_count(tail);
        assert(extent[0] == 1);
        assert(tail[tail.len() - 2] == extent[extent.len() - 2]);
        assert(tail[tail.len() - 1] == extent[extent.len() - 1]);
    }
}

} // verus!
