//! Elementwise buffer operations.
//!
//! Every numeric pass of the engine — a forward kernel, a recomputed
//! derivative, a vector-Jacobian product, a gradient accumulation — is one
//! elementwise walk over two equally long buffers, stopping at the first
//! element that fails. [`zip_res`] is the mathematical model of such a walk
//! and [`zip_apply`] the one executable loop that performs it.

use vstd::prelude::*;

use crate::error::TensorError;
use crate::fixed::{add_elem, add_res, vjp, vjp_res, SCALE};
use crate::kernel::{BinaryDerivative, BinaryKernel, UnaryDerivative, UnaryKernel};

verus! {

/// An elementwise operation on a pair of elements. Operations of one
/// element read only the first of the pair.
#[derive(Clone, Copy, Debug)]
pub enum ElemOp {
    /// Checked sum, the accumulation step.
    Add,
    /// Vector-Jacobian product step.
    Vjp,
    /// Forward pass of a one-operand kernel, on the first element.
    FwdUnary(UnaryKernel),
    /// Derivative of a one-operand kernel, on the first element.
    DfUnary(UnaryKernel),
    /// Forward pass of a two-operand kernel.
    FwdBinary(BinaryKernel),
    /// First partial derivative of a two-operand kernel.
    DfDxBinary(BinaryKernel),
    /// Second partial derivative of a two-operand kernel.
    DfDyBinary(BinaryKernel),
}

impl ElemOp {
    /// What this operation returns on a pair of elements.
    pub open spec fn eval(self, a: int, b: int) -> Result<i64, TensorError> {
        match self {
            ElemOp::Add => add_res(a, b),
            ElemOp::Vjp => vjp_res(a, b),
            ElemOp::FwdUnary(k) => k.f_res(a),
            ElemOp::DfUnary(k) => k.df_res(a),
            ElemOp::FwdBinary(k) => k.f_res(a, b),
            ElemOp::DfDxBinary(k) => k.dfdx_res(a, b),
            ElemOp::DfDyBinary(k) => k.dfdy_res(a, b),
        }
    }

    /// Performs this operation on one pair of elements.
    pub fn apply(&self, a: i64, b: i64) -> (r: Result<i64, TensorError>)
        ensures
            r == self.eval(a as int, b as int),
    {
        match self {
            ElemOp::Add => add_elem(a, b),
            ElemOp::Vjp => vjp(a, b),
            ElemOp::FwdUnary(k) => k.f(&a),
            ElemOp::DfUnary(k) => k.df(&a),
            ElemOp::FwdBinary(k) => k.f(&a, &b),
            ElemOp::DfDxBinary(k) => k.dfdx(&a, &b),
            ElemOp::DfDyBinary(k) => k.dfdy(&a, &b),
        }
    }
}

/// The all-zero buffer of a given length.
pub open spec fn zeros(n: nat) -> Seq<i64> {
    Seq::new(n, |i: int| 0i64)
}

/// The buffer of a given length whose every element stands for one.
pub open spec fn ones_fx(n: nat) -> Seq<i64> {
    Seq::new(n, |i: int| SCALE)
}

/// Elementwise walk of two equally long buffers: the result buffer, or the
/// error of the leftmost failing element.
pub open spec fn zip_res(a: Seq<i64>, b: Seq<i64>, op: ElemOp) -> Result<Seq<i64>, TensorError>
    recommends
        a.len() == b.len(),
    decreases a.len(),
{
    if a.len() == 0 {
        Ok(Seq::empty())
    } else {
        match zip_res(a.drop_last(), b.drop_last(), op) {
            Err(e) => Err(e),
            Ok(t) => match op.eval(a.last() as int, b.last() as int) {
                Err(e) => Err(e),
                Ok(v) => Ok(t.push(v)),
            },
        }
    }
}

/// The error of a failed elementwise result.
pub open spec fn err_of(r: Result<i64, TensorError>) -> TensorError
    recommends
        r is Err,
{
    match r {
        Err(e) => e,
        Ok(_) => arbitrary(),
    }
}

/// A walk whose every element before `i` succeeds and whose element `i`
/// fails, fails as a whole with element `i`'s error.
pub proof fn lemma_zip_res_first_err(a: Seq<i64>, b: Seq<i64>, op: ElemOp, i: int)
    requires
        a.len() == b.len(),
        0 <= i < a.len(),
        zip_res(a.take(i), b.take(i), op) is Ok,
        op.eval(a[i] as int, b[i] as int) is Err,
    ensures
        zip_res(a, b, op) == Err::<Seq<i64>, TensorError>(err_of(op.eval(a[i] as int, b[i] as int))),
    decreases a.len(),
{
    if i == a.len() - 1 {
        assert(a.take(i) =~= a.drop_last());
        assert(b.take(i) =~= b.drop_last());
    } else {
        assert(a.drop_last().take(i) =~= a.take(i));
        assert(b.drop_last().take(i) =~= b.take(i));
        lemma_zip_res_first_err(a.drop_last(), b.drop_last(), op, i);
    }
}

/// A successful walk has the lengths of its operands, and each element is
/// the operation of the operands' elements.
pub proof fn lemma_zip_res_elems(a: Seq<i64>, b: Seq<i64>, op: ElemOp, s: Seq<i64>)
    requires
        a.len() == b.len(),
        zip_res(a, b, op) == Ok::<Seq<i64>, TensorError>(s),
    ensures
        s.len() == a.len(),
        forall|i: int|
            0 <= i < a.len() ==> op.eval(a[i] as int, b[i] as int) == Ok::<i64, TensorError>(#[trigger] s[i]),
    decreases a.len(),
{
    if a.len() > 0 {
        let t = match zip_res(a.drop_last(), b.drop_last(), op) {
            Ok(t) => t,
            Err(_) => arbitrary(),
        };
        lemma_zip_res_elems(a.drop_last(), b.drop_last(), op, t);
        assert(s == t.push(match op.eval(a.last() as int, b.last() as int) {
            Ok(v) => v,
            Err(_) => arbitrary(),
        }));
        assert(forall|i: int| 0 <= i < a.len() - 1 ==> a.drop_last()[i] == a[i] && b.drop_last()[i] == b[i]);
    }
}

/// Accumulating a buffer into all zeroes gives the buffer back.
pub proof fn lemma_zip_zeros_add(s: Seq<i64>)
    ensures
        zip_res(zeros(s.len()), s, ElemOp::Add) == Ok::<Seq<i64>, TensorError>(s),
    decreases s.len(),
{
    if s.len() > 0 {
        lemma_zip_zeros_add(s.drop_last());
        let a = zeros(s.len());
        assert(a.drop_last() =~= zeros(s.drop_last().len()));
        assert(a.last() == 0i64);
        assert(zip_res(a.drop_last(), s.drop_last(), ElemOp::Add) == Ok::<Seq<i64>, TensorError>(
            s.drop_last(),
        ));
        assert(ElemOp::Add.eval(a.last() as int, s.last() as int) == Ok::<i64, TensorError>(
            s.last(),
        ));
        assert(s.drop_last().push(s.last()) =~= s);
    } else {
        assert(s =~= Seq::<i64>::empty());
    }
}

/// Performs `op` on each pair of elements of two equally long buffers;
/// see [`zip_res`].
pub fn zip_apply(op: &ElemOp, a: &Vec<i64>, b: &Vec<i64>) -> (r: Result<Vec<i64>, TensorError>)
    requires
        a@.len() == b@.len(),
    ensures
        match r {
            Ok(v) => zip_res(a@, b@, *op) == Ok::<Seq<i64>, TensorError>(v@),
            Err(e) => zip_res(a@, b@, *op) == Err::<Seq<i64>, TensorError>(e),
        },
{
    let n = a.len();
    let mut out: Vec<i64> = Vec::new();
    let mut i: usize = 0;
    while i < n
        invariant
            i <= n,
            n == a@.len(),
            a@.len() == b@.len(),
            out@.len() == i,
            zip_res(a@.take(i as int), b@.take(i as int), *op) == Ok::<Seq<i64>, TensorError>(out@),
        decreases n - i,
    {
        match op.apply(a[i], b[i]) {
            Err(e) => {
                proof {
                    lemma_zip_res_first_err(a@, b@, *op, i as int);
                }
                return Err(e);
            },
            Ok(v) => {
                out.push(v);
                proof {
                    assert(a@.take(i as int + 1).drop_last() =~= a@.take(i as int));
                    assert(b@.take(i as int + 1).drop_last() =~= b@.take(i as int));
                }
            },
        }
        i = i + 1;
    }
    proof {
        assert(a@.take(n as int) =~= a@);
        assert(b@.take(n as int) =~= b@);
    }
    Ok(out)
}

/// A fresh all-zero buffer; see [`zeros`].
pub fn zero_vec(n: usize) -> (r: Vec<i64>)
    ensures
        r@ == zeros(n as nat),
{
    let mut out: Vec<i64> = Vec::new();
    let mut i: usize = 0;
    while i < n
        invariant
            i <= n,
            out@.len() == i,
            forall|j: int| 0 <= j < i ==> out@[j] == 0i64,
        decreases n - i,
    {
        out.push(0);
        i = i + 1;
    }
    proof {
        assert(out@ =~= zeros(n as nat));
    }
    out
}

/// A fresh buffer of ones; see [`ones_fx`].
pub fn ones_vec(n: usize) -> (r: Vec<i64>)
    ensures
        r@ == ones_fx(n as nat),
{
    let mut out: Vec<i64> = Vec::new();
    let mut i: usize = 0;
    while i < n
        invariant
            i <= n,
            out@.len() == i,
            forall|j: int| 0 <= j < i ==> out@[j] == SCALE,
        decreases n - i,
    {
        out.push(SCALE);
        i = i + 1;
    }
    proof {
        assert(out@ =~= ones_fx(n as nat));
    }
    out
}

/// An owned copy of a buffer.
pub fn copy_vec(v: &Vec<i64>) -> (r: Vec<i64>)
    ensures
        r@ == v@,
{
    let mut out: Vec<i64> = Vec::new();
    let mut i: usize = 0;
    let n = v.len();
    while i < n
        invariant
            i <= n,
            n == v@.len(),
            out@.len() == i,
            forall|j: int| 0 <= j < i ==> out@[j] == v@[j],
        decreases n - i,
    {
        out.push(v[i]);
        i = i + 1;
    }
    proof {
        assert(out@ =~= v@);
    }
    out
}

} // verus!
