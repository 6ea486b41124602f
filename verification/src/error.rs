use vstd::prelude::*;

verus! {

/// A failure of the viewing pipeline.
///
/// Each variant carries the values that made the stage fail, so a caller can
/// report the exact condition. Failures of the storage backend itself and of
/// the floating-point normalization stage are reported by the caller that
/// drives those collaborators; they have no variant here.
#[derive(Debug, PartialEq, Eq)]
pub enum PeekError {
    /// The array has fewer than two dimensions, so there are no display axes.
    InvalidShape,
    /// More slice indices were provided than there are non-display dimensions.
    TooManyIndices { expected: usize, provided: usize },
    /// A slice index does not lie below its dimension's extent.
    IndexOutOfBounds { index: u64, dimension: usize },
    /// The element storage type of the array is outside the supported set.
    UnsupportedDataType { name: String },
    /// A subset reached the reshape step with a non-unit leading extent or a
    /// rank below two.
    ShapeMismatch,
    /// A byte buffer's length does not equal rows times columns.
    BufferSize { needed: u64, actual: u64 },
}

} // verus!
