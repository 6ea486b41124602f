//! Extract a two-dimensional viewable slice from a chunked multi-dimensional
//! array store, normalize its intensity range, and assemble a single-channel
//! byte image for display.
//!
//! The pipeline runs in four stages: the shape resolver picks a rectangular
//! subset of the array ([`shape::resolve`]), the subset decoder turns the
//! stored elements of that subset into a matrix, the quantile normalizer
//! rescales the matrix into bytes (done by the caller, since it is
//! floating-point work), and the image assembler packs the bytes into a
//! single-channel image.

pub mod assemble;
pub mod dtype;
pub mod error;
pub mod shape;
pub mod store;
