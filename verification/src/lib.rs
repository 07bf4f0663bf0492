//! A reverse-mode automatic-differentiation engine.
//!
//! Operations applied to gradient-tracking tensors are recorded on a
//! [`tape::OwnedTape`] as deferred backward operations; calling
//! [`backward::Backward::try_backward`] on a scalar result seeds its own
//! gradient with one and replays the tape in reverse recording order,
//! accumulating a gradient for every tensor that participated into a
//! [`store::Gradients`] map.
//!
//! Numeric elements are fixed-point values: an `i64` holds the real number
//! `v / SCALE` (see [`fixed`]). All element arithmetic is checked; an
//! out-of-range result or a division by zero surfaces as a
//! [`error::TensorError`] rather than wrapping.

pub mod backward;
pub mod buffer;
pub mod device;
pub mod error;
pub mod fixed;
pub mod kernel;
pub mod ops;
pub mod store;
pub mod tape;
