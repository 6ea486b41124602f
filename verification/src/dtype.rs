use vstd::prelude::*;

use crate::error::PeekError;
use zarrs::array::DataType;

verus! {

/// The element storage types the decoder supports: the closed set of
/// fixed-width integer and floating-point representations. Every stored
/// element of one of these widens to a 32-bit float; anything else is
/// rejected before retrieval.
#[derive(Clone, Copy, Debug, PartialEq, Eq, Structural)]
pub enum ElementType {
    Int8,
    Int16,
    Int32,
    Int64,
    UInt8,
    UInt16,
    UInt32,
    UInt64,
    Float32,
    Float64,
}

#[verifier::external_type_specification]
#[verifier::external_body]
pub struct ExDataType(DataType);

/// The tag a declared storage type classifies to: one of the supported set,
/// or `None` for every variant outside it. A function of the data type alone.
pub uninterp spec fn element_tag(dt: DataType) -> Option<ElementType>;

/// The textual name of a declared storage type, as an error report shows it.
/// A function of the data type alone.
pub uninterp spec fn data_type_label(dt: DataType) -> Seq<char>;

/// Relies on matching the variants of zarrs's `DataType`: each supported
/// storage type maps to its own tag, every other variant to `None`.
#[verifier::external_body]
fn element_type_of(dt: &DataType) -> (r: Option<ElementType>)
    ensures
        r == element_tag(*dt),
{
    match dt {
        DataType::Int8 => Some(ElementType::Int8),
        DataType::Int16 => Some(ElementType::Int16),
        DataType::Int32 => Some(ElementType::Int32),
        DataType::Int64 => Some(ElementType::Int64),
        DataType::UInt8 => Some(ElementType::UInt8),
        DataType::UInt16 => Some(ElementType::UInt16),
        DataType::UInt32 => Some(ElementType::UInt32),
        DataType::UInt64 => Some(ElementType::UInt64),
        DataType::Float32 => Some(ElementType::Float32),
        DataType::Float64 => Some(ElementType::Float64),
        _ => None,
    }
}

/// Relies on the `Debug` formatting of zarrs's `DataType` to name a storage
/// type in an error report; the text depends on the data type alone.
#[verifier::external_body]
fn data_type_name(dt: &DataType) -> (r: String)
    ensures
        r@ == data_type_label(*dt),
{
    format!("{dt:?}")
}

/// Classify the array's declared storage type: exactly the supported types
/// classify, each to its own tag, and every other type fails with
/// `UnsupportedDataType` carrying the type's textual name.
pub fn classify_data_type(dt: &DataType) -> (r: Result<ElementType, PeekError>)
    ensures
        r is Ok <==> element_tag(*dt) is Some,
        r matches Ok(et) ==> element_tag(*dt) == Some(et),
        r matches Err(e) ==> e matches PeekError::UnsupportedDataType { name } && name@
            == data_type_label(*dt),
{
    match element_type_of(dt) {
        Some(et) => Ok(et),
        None => Err(PeekError::UnsupportedDataType { name: data_type_name(dt) }),
    }
}

} // verus!
