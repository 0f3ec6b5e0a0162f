//! Error kinds surfaced by the library.

use vstd::prelude::*;

verus! {

/// Every failure that a library operation can report.
#[derive(Debug)]
pub enum CoreError {
    /// Incompatible element counts; `expected` and `actual` hold one count each.
    ShapeMismatch { expected: Vec<usize>, actual: Vec<usize> },
    /// A byte buffer or value sequence does not fit the shape and data type.
    InvalidDimension(String),
    /// A device could not be built, or refused an operation.
    GpuError(String),
    /// Wrong data type handed to the quantization codec.
    QuantizationError(String),
    /// A stored model could not be decoded.
    ModelLoadError(String),
    /// The underlying storage failed; holds its message.
    IoError(String),
    /// A model could not be encoded.
    SerializationError(String),
    /// Any other failure.
    Other(String),
}

} // verus!
