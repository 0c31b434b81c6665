use vstd::prelude::*;

verus! {

/// Every way an operation on the canvas can be rejected.
///
/// Each rejection is scoped to the single requested operation: the grid's
/// other cells and prior state remain valid and queryable afterwards.
#[derive(Clone, Copy, Debug, PartialEq, Eq, Structural)]
pub enum CanvasError {
    /// A coordinate lies outside the valid rectangle `1..=width` x `1..=height`.
    /// Carries the offending coordinates and the grid's declared limits.
    OutOfBounds { x: usize, y: usize, width: usize, height: usize },
    /// A claim carried less than the minimum deposit.
    InsufficientPayment { required: u128, supplied: u128 },
    /// A claim was attempted on a cell whose lease has not yet expired;
    /// `remaining` is the time left before the cell becomes claimable.
    CellHeld { remaining: u64 },
    /// The lease-expiry computation would exceed the representable range.
    ArithmeticOverflow,
    /// The grid was asked for with a zero dimension.
    InvalidDimensions { width: usize, height: usize },
}

} // verus!
