//! Differentiable operation entry points.
//!
//! Every operation follows one pattern: compute the forward value through
//! the device, and if any operand carries a tape, append one backward op
//! that captures the operand values and identities, handing the (possibly
//! merged) tape to the result. Operands without a tape produce a result
//! without a tape — pure inference, with no recording and no gradient side
//! effects, and the identical forward value.

use vstd::prelude::*;

use crate::buffer::{zip_res, ElemOp};
use crate::device::{Cpu, Tensor};
use crate::error::TensorError;
use crate::kernel::{BinaryDivKernelOp, BinaryKernel, ScalarDivKernelOp, UnaryKernel};
use crate::tape::{BackwardOp, OwnedTape};

verus! {

/// Whether two shape descriptors are equal.
fn eq_dims(a: &Vec<usize>, b: &Vec<usize>) -> (r: bool)
    ensures
        r == (a@ == b@),
{
    if a.len() != b.len() {
        return false;
    }
    let n = a.len();
    let mut i: usize = 0;
    while i < n
        invariant
            i <= n,
            n == a@.len(),
            a@.len() == b@.len(),
            forall|j: int| 0 <= j < i ==> a@[j] == b@[j],
        decreases n - i,
    {
        if a[i] != b[i] {
            return false;
        }
        i = i + 1;
    }
    proof {
        assert(a@ =~= b@);
    }
    true
}

impl Cpu {
    /// Divides every element of `t` by the kernel's fixed scalar. A tracked
    /// operand yields a tracked result whose tape is the operand's ops with
    /// one new backward op appended; an untracked operand yields an
    /// untracked result with the identical forward value.
    pub fn scalar_div(&mut self, t: Tensor, op: ScalarDivKernelOp) -> (r: Result<
        Tensor,
        TensorError,
    >)
        requires
            t.wf(),
        ensures
            match r {
                Ok(out) => {
                    &&& out.wf()
                    &&& out.dims@ == t.dims@
                    &&& Ok::<Seq<i64>, TensorError>(out.data@) == zip_res(
                        t.data@,
                        t.data@,
                        ElemOp::FwdUnary(UnaryKernel::ScalarDiv(op)),
                    )
                    &&& out.id == old(self).next_id
                    &&& old(self).next_id < u64::MAX
                    &&& final(self).next_id == old(self).next_id + 1
                    &&& (t.tape is None ==> out.tape is None)
                    &&& (t.tape is Some ==> {
                        &&& out.tape is Some
                        &&& out.tape_ops().len() == t.tape_ops().len() + 1
                        &&& out.tape_ops().drop_last() == t.tape_ops()
                        &&& (out.tape_ops().last() matches BackwardOp::Unary {
                            k,
                            x_id,
                            x,
                            out_id,
                        } && k == UnaryKernel::ScalarDiv(op) && x_id == t.id && x@ == t.data@
                            && out_id == out.id)
                    })
                },
                Err(e) => *final(self) == *old(self) && (match zip_res(
                    t.data@,
                    t.data@,
                    ElemOp::FwdUnary(UnaryKernel::ScalarDiv(op)),
                ) {
                    Err(e2) => e == e2,
                    Ok(_) => e == TensorError::Capacity && old(self).next_id == u64::MAX,
                }),
            },
    {
        let k = UnaryKernel::ScalarDiv(op);
        let out_data = match self.apply_unary(&k, &t.data) {
            Err(e) => return Err(e),
            Ok(v) => v,
        };
        let out_id = match self.fresh_id() {
            Err(e) => return Err(e),
            Ok(id) => id,
        };
        let Tensor { id: x_id, dims, data: x, tape } = t;
        let out_tape: Option<OwnedTape> = match tape {
            None => None,
            Some(mut ta) => {
                ta.add_backward_op(BackwardOp::Unary { k, x_id, x, out_id });
                Some(ta)
            },
        };
        proof {
            crate::buffer::lemma_zip_res_elems(
                t.data@,
                t.data@,
                ElemOp::FwdUnary(UnaryKernel::ScalarDiv(op)),
                out_data@,
            );
        }
        Ok(Tensor { id: out_id, dims, data: out_data, tape: out_tape })
    }

    /// Divides `a` by `b` elementwise. If either operand carries a tape the
    /// result owns the merge — `a`'s ops, then `b`'s ops, then one new
    /// backward op last; if neither does, the result carries none and the
    /// forward value is identical.
    pub fn div(&mut self, a: Tensor, b: Tensor) -> (r: Result<Tensor, TensorError>)
        requires
            a.wf(),
            b.wf(),
        ensures
            match r {
                Ok(out) => {
                    &&& a.dims@ == b.dims@
                    &&& out.wf()
                    &&& out.dims@ == a.dims@
                    &&& Ok::<Seq<i64>, TensorError>(out.data@) == zip_res(
                        a.data@,
                        b.data@,
                        ElemOp::FwdBinary(BinaryKernel::Div(BinaryDivKernelOp)),
                    )
                    &&& out.id == old(self).next_id
                    &&& old(self).next_id < u64::MAX
                    &&& final(self).next_id == old(self).next_id + 1
                    &&& ((a.tape is None && b.tape is None) ==> out.tape is None)
                    &&& ((a.tape is Some || b.tape is Some) ==> {
                        &&& out.tape is Some
                        &&& out.tape_ops().len() == a.tape_ops().len() + b.tape_ops().len() + 1
                        &&& out.tape_ops().drop_last() == a.tape_ops() + b.tape_ops()
                        &&& (out.tape_ops().last() matches BackwardOp::Binary {
                            k,
                            lhs_id,
                            lhs,
                            rhs_id,
                            rhs,
                            out_id,
                        } && k == BinaryKernel::Div(BinaryDivKernelOp) && lhs_id == a.id && lhs@
                            == a.data@ && rhs_id == b.id && rhs@ == b.data@ && out_id == out.id)
                    })
                },
                Err(e) => *final(self) == *old(self) && (if a.dims@ != b.dims@ {
                    e == TensorError::ShapeMismatch
                } else {
                    match zip_res(
                        a.data@,
                        b.data@,
                        ElemOp::FwdBinary(BinaryKernel::Div(BinaryDivKernelOp)),
                    ) {
                        Err(e2) => e == e2,
                        Ok(_) => e == TensorError::Capacity && old(self).next_id == u64::MAX,
                    }
                }),
            },
    {
        if !eq_dims(&a.dims, &b.dims) {
            return Err(TensorError::ShapeMismatch);
        }
        let k = BinaryKernel::Div(BinaryDivKernelOp);
        let out_data = match self.apply_binary(&k, &a.data, &b.data) {
            Err(e) => return Err(e),
            Ok(v) => v,
        };
        let out_id = match self.fresh_id() {
            Err(e) => return Err(e),
            Ok(id) => id,
        };
        let Tensor { id: lhs_id, dims, data: lhs, tape: a_tape } = a;
        let Tensor { id: rhs_id, dims: _, data: rhs, tape: b_tape } = b;
        let out_tape: Option<OwnedTape> = if a_tape.is_none() && b_tape.is_none() {
            None
        } else {
            let mut ta = match a_tape {
                Some(t) => t,
                None => OwnedTape::new(),
            };
            let tb = match b_tape {
                Some(t) => t,
                None => OwnedTape::new(),
            };
            ta.merge(tb);
            ta.add_backward_op(BackwardOp::Binary { k, lhs_id, lhs, rhs_id, rhs, out_id });
            proof {
                assert(Seq::<BackwardOp>::empty() + b.tape_ops() =~= b.tape_ops());
                assert(a.tape_ops() + Seq::<BackwardOp>::empty() =~= a.tape_ops());
            }
            Some(ta)
        };
        proof {
            crate::buffer::lemma_zip_res_elems(
                a.data@,
                b.data@,
                ElemOp::FwdBinary(BinaryKernel::Div(BinaryDivKernelOp)),
                out_data@,
            );
        }
        Ok(Tensor { id: out_id, dims, data: out_data, tape: out_tape })
    }
}

} // verus!
