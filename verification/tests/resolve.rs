use zarr_peek::error::PeekError;
use zarr_peek::shape::{display_dims, ensure_at_least_2d, resolve, Subset};

#[test]
fn four_dims_with_one_index() {
    let shape: Vec<u64> = vec![5, 3, 1000, 2000];
    let indices: Option<Vec<u64>> = Some(vec![2]);
    let s = resolve(&shape, &indices, 720).unwrap();
    assert_eq!(s.start, vec![2, 1, 0, 0]);
    assert_eq!(s.extent, vec![1, 1, 720, 720]);
}

#[test]
fn two_dims_truncated() {
    let shape: Vec<u64> = vec![1000, 2000];
    let s = resolve(&shape, &None, 720).unwrap();
    assert_eq!(s.start, vec![0, 0]);
    assert_eq!(s.extent, vec![720, 720]);
}

#[test]
fn two_dims_kept_whole() {
    let shape: Vec<u64> = vec![500, 600];
    let s = resolve(&shape, &None, 720).unwrap();
    assert_eq!(s.start, vec![0, 0]);
    assert_eq!(s.extent, vec![500, 600]);
}

#[test]
fn crop_equal_to_size_is_not_truncated() {
    let shape: Vec<u64> = vec![720, 720];
    let s = resolve(&shape, &None, 720).unwrap();
    assert_eq!(s.extent, vec![720, 720]);
}

#[test]
fn unindexed_dimensions_are_centered() {
    let shape: Vec<u64> = vec![3, 9, 10, 10];
    let s = resolve(&shape, &None, 720).unwrap();
    assert_eq!(s.start, vec![1, 4, 0, 0]);
    assert_eq!(s.extent, vec![1, 1, 10, 10]);
}

#[test]
fn partial_indices_center_the_rest() {
    let shape: Vec<u64> = vec![4, 7, 10, 10];
    let indices: Option<Vec<u64>> = Some(vec![0]);
    let s = resolve(&shape, &indices, 5).unwrap();
    assert_eq!(s.start, vec![0, 3, 0, 0]);
    assert_eq!(s.extent, vec![1, 1, 5, 5]);
}

#[test]
fn resolved_subset_stays_within_shape() {
    let shape: Vec<u64> = vec![5, 3, 1000, 2000];
    let indices: Option<Vec<u64>> = Some(vec![4]);
    let s = resolve(&shape, &indices, 4096).unwrap();
    assert_eq!(s.start.len(), shape.len());
    assert_eq!(s.extent.len(), shape.len());
    for i in 0..shape.len() {
        assert!(s.start[i] + s.extent[i] <= shape[i]);
    }
}

#[test]
fn one_dim_is_invalid() {
    let shape: Vec<u64> = vec![7];
    assert_eq!(resolve(&shape, &None, 720), Err(PeekError::InvalidShape));
    assert_eq!(ensure_at_least_2d(&shape), Err(PeekError::InvalidShape));
    let ok: Vec<u64> = vec![7, 7];
    assert!(ensure_at_least_2d(&ok).is_ok());
}

#[test]
fn too_many_indices_two_dims() {
    let shape: Vec<u64> = vec![10, 10];
    let indices: Option<Vec<u64>> = Some(vec![1]);
    assert_eq!(
        resolve(&shape, &indices, 720),
        Err(PeekError::TooManyIndices { expected: 0, provided: 1 })
    );
}

#[test]
fn too_many_indices_three_dims() {
    let shape: Vec<u64> = vec![4, 10, 10];
    let indices: Option<Vec<u64>> = Some(vec![1, 2]);
    assert_eq!(
        resolve(&shape, &indices, 720),
        Err(PeekError::TooManyIndices { expected: 1, provided: 2 })
    );
}

#[test]
fn index_at_size_is_out_of_bounds() {
    let shape: Vec<u64> = vec![3, 10, 10];
    let indices: Option<Vec<u64>> = Some(vec![3]);
    assert_eq!(
        resolve(&shape, &indices, 720),
        Err(PeekError::IndexOutOfBounds { index: 3, dimension: 0 })
    );
}

#[test]
fn first_bad_index_is_reported() {
    let shape: Vec<u64> = vec![2, 2, 10, 10];
    let indices: Option<Vec<u64>> = Some(vec![1, 5]);
    assert_eq!(
        resolve(&shape, &indices, 720),
        Err(PeekError::IndexOutOfBounds { index: 5, dimension: 1 })
    );
}

#[test]
fn display_dims_of_resolved_subset() {
    let shape: Vec<u64> = vec![5, 3, 1000, 2000];
    let indices: Option<Vec<u64>> = Some(vec![2]);
    let s = resolve(&shape, &indices, 720).unwrap();
    assert_eq!(display_dims(&s), Ok((720, 720)));
}

#[test]
fn display_dims_refuses_non_unit_leading_extent() {
    let s = Subset { start: vec![0, 0, 0], extent: vec![2, 5, 5] };
    assert_eq!(display_dims(&s), Err(PeekError::ShapeMismatch));
}

#[test]
fn display_dims_refuses_rank_one() {
    let s = Subset { start: vec![0], extent: vec![5] };
    assert_eq!(display_dims(&s), Err(PeekError::ShapeMismatch));
}
