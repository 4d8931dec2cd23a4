use vstd::prelude::*;

verus! {

/// Why a tensor could not be turned into a declaration.
#[derive(Clone, Copy, Debug, PartialEq, Eq, Structural)]
pub enum CodegenError {
    /// The model has no graph, so there are no tensors to read.
    MissingGraph,
    /// The tensor has no name.
    MissingName,
    /// The tensor's name is not a Rust identifier.
    InvalidName,
    /// The tensor carries no data-type code.
    MissingElementType,
    /// The data-type code is outside the known enumeration.
    UnknownElementType,
    /// The element kind is known but has no literal form here.
    UnsupportedLiteralType,
    /// A dimension is negative, or the data length is not the product of the dimensions.
    DataShapeMismatch,
    /// The shape has no dimensions.
    EmptyShapeError,
}

} // verus!
