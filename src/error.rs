use vstd::prelude::*;

verus! {

/// Why an operation on a buffer was refused. A refused operation changes nothing.
#[derive(Debug, Clone, Copy, PartialEq, Eq, Structural)]
pub enum BufferError {
    /// `reset` with no mark set.
    InvalidMark,
    /// A limit, position, count or cursor tuple outside its valid range.
    IllegalArgument,
    /// A read asked for more bytes than remain.
    BufferUnderflow,
    /// A write asked for more room than remains.
    BufferOverflow,
    /// A positional index, or a range of an outside array, out of bounds.
    IndexOutOfBounds,
}

} // verus!
