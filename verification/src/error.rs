//! The fatal, construction-time failures of the array layer. Each variant is a
//! distinct data-integrity condition; none is recoverable by retrying.

use vstd::prelude::*;

verus! {

#[derive(Debug, Clone, Copy, PartialEq, Eq, Structural)]
pub enum ArrowError {
    /// The container holds a number of buffers other than what its layout needs.
    BufferCountMismatch,
    /// The container holds a number of child containers other than what its layout needs.
    ChildCountMismatch,
    /// A buffer's start is not aligned to the native size of the element type.
    UnalignedBuffer,
    /// The offsets buffer is too short to hold `length + 1` offsets.
    ShortOffsetsBuffer,
    /// The first offset of a list layout is not zero.
    OffsetsNotStartingAtZero,
    /// The final offset of a list layout does not equal the child array's length.
    InconsistentOffsets,
    /// The factory met a type tag it has no layout for.
    UnsupportedDataType,
    /// A list being reinterpreted as bytes has a nested child.
    NestedListChild,
    /// A list being reinterpreted as bytes has a child of some type other than
    /// unsigned 8-bit integers.
    ListChildTypeMismatch,
    /// The columns handed to a struct constructor do not all have one length.
    StructFieldLengthMismatch,
    /// A checked element access lay past the array's logical length.
    OutOfBounds,
}

} // verus!
