//! The differentiation driver.
//!
//! [`Backward::try_backward`] consumes a scalar tracked tensor, seeds the
//! gradient of the tensor's own identity with a buffer of ones — the
//! derivative of the scalar output with respect to itself — and plays the
//! tape in reverse recording order against a fresh gradient store. The
//! populated store is the result; a failed pass yields no store at all.

use vstd::prelude::*;

use crate::buffer::ones_fx;
use crate::device::Tensor;
use crate::error::TensorError;
use crate::store::Gradients;
use crate::tape::{apply_op, lemma_execute_reverse_order, run_tape, BackwardOp};

verus! {

/// Runs the backprop algorithm over the ops of the tape that `self` owns.
pub trait Backward: Sized {
    /// The gradient store this value's backward pass yields, or the error
    /// the pass stops with.
    spec fn grads_model(self) -> Result<Map<u64, Seq<i64>>, TensorError>;

    /// Runs backprop. For a caller that has not ruled the errors out,
    /// [`Backward::try_backward`] is the fallible form.
    fn backward(self) -> (g: Gradients)
        requires
            self.grads_model() is Ok,
        ensures
            self.grads_model() == Ok::<Map<u64, Seq<i64>>, TensorError>(g@),
    ;

    /// Fallible version of [`Backward::backward`].
    fn try_backward(self) -> (r: Result<Gradients, TensorError>)
        ensures
            match r {
                Ok(g) => self.grads_model() == Ok::<Map<u64, Seq<i64>>, TensorError>(g@),
                Err(e) => self.grads_model() == Err::<Map<u64, Seq<i64>>, TensorError>(e),
            },
    ;
}

impl Backward for Tensor {
    /// A non-scalar tensor is rejected — the driver never reduces
    /// implicitly. A scalar's pass seeds its own identity with ones and
    /// plays its tape in reverse against an empty store.
    open spec fn grads_model(self) -> Result<Map<u64, Seq<i64>>, TensorError> {
        if !self.is_scalar() {
            Err(TensorError::ShapeMismatch)
        } else {
            run_tape(
                Map::empty(),
                self.tape_ops().push(BackwardOp::FillOnes { id: self.id, len: 1 }),
            )
        }
    }

    fn backward(self) -> (g: Gradients) {
        match self.try_backward() {
            Ok(g) => g,
            Err(_) => vstd::pervasive::unreached(),
        }
    }

    fn try_backward(self) -> (r: Result<Gradients, TensorError>) {
        if self.dims.len() != 0 {
            return Err(TensorError::ShapeMismatch);
        }
        let (t, mut tape) = self.split_tape();
        tape.add_backward_op(BackwardOp::FillOnes { id: t.id, len: 1 });
        let store = Gradients::new();
        tape.execute(store)
    }
}

/// The scalar-seed law: a scalar's backward pass first sets the gradient
/// of the tensor's own identity to exactly one — a one-element buffer of
/// ones, matching the 0-dimensional shape — and only then plays the
/// recorded ops. A tensor that recorded nothing yields exactly that seed.
pub proof fn lemma_backward_seeds_one(t: Tensor)
    requires
        t.is_scalar(),
    ensures
        t.grads_model() == run_tape(
            Map::<u64, Seq<i64>>::empty().insert(t.id, ones_fx(1)),
            t.tape_ops(),
        ),
        t.tape_ops().len() == 0 ==> t.grads_model() == Ok::<Map<u64, Seq<i64>>, TensorError>(
            Map::<u64, Seq<i64>>::empty().insert(t.id, ones_fx(1)),
        ),
{
    let seed = BackwardOp::FillOnes { id: t.id, len: 1 };
    lemma_execute_reverse_order(Map::empty(), t.tape_ops(), seed);
    assert(apply_op(Map::<u64, Seq<i64>>::empty(), seed) == Ok::<Map<u64, Seq<i64>>, TensorError>(
        Map::<u64, Seq<i64>>::empty().insert(t.id, ones_fx(1)),
    ));
}

} // verus!
