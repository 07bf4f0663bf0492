//! The compute device.
//!
//! [`Cpu`] owns nothing but a counter of tensor identities; buffers are
//! plain vectors. It allocates zero-filled storage, fills buffers with
//! ones, and runs elementwise kernels given a kernel descriptor — no
//! gradient knowledge lives here, only numeric execution. Allocation can
//! fail (an element count beyond `usize`, or identities running out) and
//! every failure is surfaced as an error, never truncated away.

use vstd::prelude::*;

use crate::buffer::{ones_vec, zero_vec, zeros, ones_fx, zip_apply, zip_res, ElemOp};
use crate::error::TensorError;
use crate::kernel::{BinaryKernel, UnaryKernel};
use crate::tape::{BackwardOp, OwnedTape};

verus! {

/// The element count of a shape: the product of its dimensions; the
/// 0-dimensional (scalar) shape has one element.
pub open spec fn shape_count(dims: Seq<usize>) -> nat
    decreases dims.len(),
{
    if dims.len() == 0 {
        1
    } else {
        shape_count(dims.drop_last()) * (dims.last() as nat)
    }
}

/// A shape with a zero dimension has no elements.
pub proof fn lemma_shape_count_zero(dims: Seq<usize>, i: int)
    requires
        0 <= i < dims.len(),
        dims[i] == 0,
    ensures
        shape_count(dims) == 0,
    decreases dims.len(),
{
    if i == dims.len() - 1 {
        assert(shape_count(dims.drop_last()) * (dims.last() as nat) == 0) by (nonlinear_arith)
            requires
                dims.last() == 0,
        ;
    } else {
        lemma_shape_count_zero(dims.drop_last(), i);
        assert(shape_count(dims.drop_last()) * (dims.last() as nat) == 0) by (nonlinear_arith)
            requires
                shape_count(dims.drop_last()) == 0,
        ;
    }
}

/// Extending a shape by dimensions of at least one cannot shrink its
/// element count.
pub proof fn lemma_shape_count_extend(dims: Seq<usize>, i: int)
    requires
        0 <= i <= dims.len(),
        forall|j: int| i <= j < dims.len() ==> #[trigger] dims[j] >= 1,
    ensures
        shape_count(dims) >= shape_count(dims.take(i)),
    decreases dims.len() - i,
{
    if i == dims.len() {
        assert(dims.take(i) =~= dims);
    } else {
        assert(dims.drop_last().take(i) =~= dims.take(i));
        lemma_shape_count_extend(dims.drop_last(), i);
        vstd::arithmetic::mul::lemma_mul_inequality(
            1,
            dims.last() as int,
            shape_count(dims.drop_last()) as int,
        );
    }
}

/// The element count of a shape, or [`TensorError::Overflow`] where it
/// exceeds what a buffer can hold.
pub fn count_elems(dims: &Vec<usize>) -> (r: Result<usize, TensorError>)
    ensures
        match r {
            Ok(n) => n as nat == shape_count(dims@),
            Err(e) => e == TensorError::Overflow && shape_count(dims@) > usize::MAX,
        },
{
    let n = dims.len();
    let mut i: usize = 0;
    while i < n
        invariant
            i <= n,
            n == dims@.len(),
            forall|j: int| 0 <= j < i ==> #[trigger] dims@[j] >= 1,
        decreases n - i,
    {
        if dims[i] == 0 {
            proof {
                lemma_shape_count_zero(dims@, i as int);
            }
            return Ok(0);
        }
        i = i + 1;
    }
    let mut acc: usize = 1;
    let mut k: usize = 0;
    proof {
        assert(dims@.take(0) =~= Seq::<usize>::empty());
    }
    while k < n
        invariant
            k <= n,
            n == dims@.len(),
            forall|j: int| 0 <= j < n ==> #[trigger] dims@[j] >= 1,
            acc as nat == shape_count(dims@.take(k as int)),
        decreases n - k,
    {
        proof {
            assert(dims@.take(k as int + 1).drop_last() =~= dims@.take(k as int));
        }
        match acc.checked_mul(dims[k]) {
            Some(next) => {
                acc = next;
            },
            None => {
                proof {
                    lemma_shape_count_extend(dims@, k as int + 1);
                }
                return Err(TensorError::Overflow);
            },
        }
        k = k + 1;
    }
    proof {
        assert(dims@.take(n as int) =~= dims@);
    }
    Ok(acc)
}

/// A tensor: a shape, device-resident data, a globally unique identity
/// assigned at creation, and an optional tape. Two tensors with one
/// identity stand for one storage and their gradients merge additively.
#[derive(Clone)]
pub struct Tensor {
    /// The identity, stable for the life of the storage.
    pub id: u64,
    /// The shape descriptor; no dimensions means a scalar.
    pub dims: Vec<usize>,
    /// The elements, one per point of the shape.
    pub data: Vec<i64>,
    /// The tape this tensor owns while in tracking mode.
    pub tape: Option<OwnedTape>,
}

impl Tensor {
    /// A tensor is well formed when its data holds exactly one element per
    /// point of its shape.
    pub open spec fn wf(self) -> bool {
        self.data@.len() == shape_count(self.dims@)
    }

    /// Whether the shape is the 0-dimensional (scalar) shape.
    pub open spec fn is_scalar(self) -> bool {
        self.dims@.len() == 0
    }

    /// The recorded ops of the owned tape; none means no recording.
    pub open spec fn tape_ops(self) -> Seq<BackwardOp> {
        match self.tape {
            Some(t) => t.ops_spec(),
            None => Seq::empty(),
        }
    }

    /// Enters tracking mode: the result owns a fresh, empty tape, so
    /// subsequent operations on it are recorded.
    pub fn trace(self) -> (r: Tensor)
        ensures
            r.id == self.id,
            r.dims@ == self.dims@,
            r.data@ == self.data@,
            r.tape is Some,
            r.tape_ops() == Seq::<BackwardOp>::empty(),
    {
        Tensor { id: self.id, dims: self.dims, data: self.data, tape: Some(OwnedTape::new()) }
    }

    /// Takes the tape out: the value without a tape, and the tape itself
    /// (empty where none was owned). At any time one holder owns a tape;
    /// taking it detaches it from this tensor.
    pub fn split_tape(self) -> (r: (Tensor, OwnedTape))
        ensures
            r.0.id == self.id,
            r.0.dims@ == self.dims@,
            r.0.data@ == self.data@,
            r.0.tape is None,
            r.1.ops_spec() == self.tape_ops(),
    {
        let Tensor { id, dims, data, tape } = self;
        match tape {
            Some(t) => (Tensor { id, dims, data, tape: None }, t),
            None => (Tensor { id, dims, data, tape: None }, OwnedTape::new()),
        }
    }

    /// Attaches a tape, the counterpart of [`Self::split_tape`]: the result
    /// owns `t` and any tape this tensor owned is dropped.
    pub fn put_tape(self, t: OwnedTape) -> (r: Tensor)
        ensures
            r.id == self.id,
            r.dims@ == self.dims@,
            r.data@ == self.data@,
            r.tape is Some,
            r.tape_ops() == t.ops_spec(),
    {
        Tensor { id: self.id, dims: self.dims, data: self.data, tape: Some(t) }
    }
}

/// The in-memory compute device: it executes kernels elementwise and hands
/// out identities from a counter, so no two allocations share one.
pub struct Cpu {
    /// The next unassigned tensor identity.
    pub next_id: u64,
}

impl Cpu {
    /// A fresh device whose identities start at zero.
    pub fn new() -> (r: Cpu)
        ensures
            r.next_id == 0,
    {
        Cpu { next_id: 0 }
    }

    /// Hands out the next identity, or [`TensorError::Capacity`] when none
    /// is left.
    pub fn fresh_id(&mut self) -> (r: Result<u64, TensorError>)
        ensures
            match r {
                Ok(id) => old(self).next_id < u64::MAX && id == old(self).next_id
                    && final(self).next_id == old(self).next_id + 1,
                Err(e) => e == TensorError::Capacity && old(self).next_id == u64::MAX && *final(self) == *old(self),
            },
    {
        if self.next_id == u64::MAX {
            return Err(TensorError::Capacity);
        }
        let id = self.next_id;
        self.next_id = self.next_id + 1;
        Ok(id)
    }

    /// Allocates a zero-filled tensor of the given shape with a fresh
    /// identity and no tape.
    pub fn allocate(&mut self, dims: Vec<usize>) -> (r: Result<Tensor, TensorError>)
        ensures
            match r {
                Ok(t) => {
                    &&& t.wf()
                    &&& t.dims@ == dims@
                    &&& t.data@ == zeros(shape_count(dims@))
                    &&& t.tape is None
                    &&& t.id == old(self).next_id
                    &&& old(self).next_id < u64::MAX
                    &&& final(self).next_id == old(self).next_id + 1
                },
                Err(e) => *final(self) == *old(self) && (if shape_count(dims@) > usize::MAX {
                    e == TensorError::Overflow
                } else {
                    e == TensorError::Capacity && old(self).next_id == u64::MAX
                }),
            },
    {
        let n = match count_elems(&dims) {
            Err(e) => return Err(e),
            Ok(n) => n,
        };
        let id = match self.fresh_id() {
            Err(e) => return Err(e),
            Ok(id) => id,
        };
        Ok(Tensor { id, dims, data: zero_vec(n), tape: None })
    }

    /// Builds a tensor of the given shape around the given elements, with a
    /// fresh identity and no tape.
    pub fn tensor_from(&mut self, dims: Vec<usize>, data: Vec<i64>) -> (r: Result<
        Tensor,
        TensorError,
    >)
        ensures
            match r {
                Ok(t) => {
                    &&& t.wf()
                    &&& t.dims@ == dims@
                    &&& t.data@ == data@
                    &&& t.tape is None
                    &&& t.id == old(self).next_id
                    &&& old(self).next_id < u64::MAX
                    &&& final(self).next_id == old(self).next_id + 1
                },
                Err(e) => *final(self) == *old(self) && (if data@.len() != shape_count(dims@) {
                    e == TensorError::ShapeMismatch
                } else {
                    e == TensorError::Capacity && old(self).next_id == u64::MAX
                }),
            },
    {
        let dl = data.len();
        let n = match count_elems(&dims) {
            Err(_) => return Err(TensorError::ShapeMismatch),
            Ok(n) => n,
        };
        if dl != n {
            return Err(TensorError::ShapeMismatch);
        }
        let id = match self.fresh_id() {
            Err(e) => return Err(e),
            Ok(id) => id,
        };
        Ok(Tensor { id, dims, data, tape: None })
    }

    /// Overwrites a buffer with ones, the device's seeding primitive.
    pub fn try_fill_with_ones(&self, v: &mut Vec<i64>) -> (r: Result<(), TensorError>)
        ensures
            r is Ok,
            final(v)@ == ones_fx(old(v)@.len()),
    {
        let n = v.len();
        *v = ones_vec(n);
        Ok(())
    }

    /// Runs a one-operand kernel's forward pass over a buffer.
    pub fn apply_unary(&self, k: &UnaryKernel, x: &Vec<i64>) -> (r: Result<Vec<i64>, TensorError>)
        ensures
            match r {
                Ok(v) => zip_res(x@, x@, ElemOp::FwdUnary(*k)) == Ok::<Seq<i64>, TensorError>(v@),
                Err(e) => zip_res(x@, x@, ElemOp::FwdUnary(*k)) == Err::<Seq<i64>, TensorError>(e),
            },
    {
        zip_apply(&ElemOp::FwdUnary(*k), x, x)
    }

    /// Runs a two-operand kernel's forward pass over two equally long
    /// buffers.
    pub fn apply_binary(&self, k: &BinaryKernel, x: &Vec<i64>, y: &Vec<i64>) -> (r: Result<
        Vec<i64>,
        TensorError,
    >)
        requires
            x@.len() == y@.len(),
        ensures
            match r {
                Ok(v) => zip_res(x@, y@, ElemOp::FwdBinary(*k)) == Ok::<Seq<i64>, TensorError>(v@),
                Err(e) => zip_res(x@, y@, ElemOp::FwdBinary(*k)) == Err::<Seq<i64>, TensorError>(
                    e,
                ),
            },
    {
        zip_apply(&ElemOp::FwdBinary(*k), x, y)
    }
}

} // verus!
