use vstd::prelude::*;

verus! {

/// Why a checked operation on a byte or page count failed.
#[derive(Debug, Clone, Copy, PartialEq, Eq, Structural)]
pub enum UnitError {
    /// The right operand of a subtraction is larger than the left one.
    Underflow,
    /// The result does not fit in a `usize`.
    Overflow,
}

} // verus!
