use vstd::prelude::*;

verus! {

/// Everything a checked container operation can report when it fails.
///
/// Out-of-memory inside the allocator itself is not represented here: a
/// request that passes the size check but cannot be satisfied ends the
/// process, as the allocator dictates, and is never returned as a value.
#[derive(Clone, Copy, Debug, PartialEq, Eq, Structural)]
pub enum SoaError {
    /// The requested element count times the element size exceeds the
    /// platform's representable allocation limit (half the address space).
    /// Raised before any allocation is attempted.
    AllocationTooLarge,
    /// A point index was at least the length, or a range end exceeded it.
    IndexOutOfBounds,
    /// A range start was greater than its end.
    InvalidRange,
    /// Resolving an inclusive or exclusive bound overflowed the index type.
    RangeOverflow,
}

} // verus!
