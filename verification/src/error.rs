//! The error taxonomy of the engine.
//!
//! Every fallible operation returns a `Result` whose error is a
//! [`TensorError`]; the immediate caller must handle it. The engine never
//! retries and keeps no global error channel.

use vstd::prelude::*;

verus! {

/// An error surfaced by a device operation or a tape replay.
#[derive(Clone, Copy, Debug, PartialEq, Eq, Structural)]
pub enum TensorError {
    /// An element division met a zero divisor.
    DivByZero,
    /// An element result fell outside the `i64` range, or a shape's
    /// element count fell outside the `usize` range.
    Overflow,
    /// Two buffers that must agree elementwise had different lengths,
    /// or a non-scalar tensor was handed to the backward driver.
    ShapeMismatch,
    /// The device ran out of fresh tensor identities.
    Capacity,
}

} // verus!
