//! The tape: an ordered, append-only log of deferred backward operations.
//!
//! Ops are recorded in forward-execution order and never reordered on
//! insertion; the only reordering is at playback, which walks the log in
//! reverse. A tape recorded this way is a valid reverse topological order
//! of the operations that actually ran, because every op is appended only
//! after its inputs exist — no separately built graph is needed.
//!
//! An op is a plain command record over captured values; derivatives are
//! recomputed at playback from the captured operand values, so a tape holds
//! no derivative buffers. The device state the values came from never
//! changes between record and playback, so recomputation returns what
//! record-time computation would have.

use vstd::prelude::*;

use crate::buffer::{copy_vec, zip_apply, zip_res, ElemOp};
use crate::error::TensorError;
use crate::kernel::{BinaryKernel, UnaryKernel};
use crate::store::{acc_res, alloc_at, grad_at, Gradients};

verus! {

/// One recorded unit of backward work: given a gradient store, it pulls
/// the output's gradient and pushes derived gradients into its inputs.
/// An op captures only what it needs — identities and operand values —
/// never a tape.
#[derive(Clone)]
pub enum BackwardOp {
    /// Overwrite the buffer of `id` with ones, creating it with length
    /// `len` if absent: the seed of a backward pass.
    FillOnes {
        /// Identity whose gradient is seeded.
        id: u64,
        /// Length of the seeded buffer if none exists yet.
        len: usize,
    },
    /// Pull the gradient of `out_id`, multiply it elementwise by the
    /// kernel's derivative at the captured operand `x`, and accumulate the
    /// product into `x_id`.
    Unary {
        /// The operation whose derivative is recomputed at playback.
        k: UnaryKernel,
        /// Identity of the operand.
        x_id: u64,
        /// Operand values captured at record time.
        x: Vec<i64>,
        /// Identity of the operation's output.
        out_id: u64,
    },
    /// Pull the gradient of `out_id` and accumulate one vector-Jacobian
    /// product per operand: first into `lhs_id`, then into `rhs_id`. Two
    /// additive accumulations, so two operands with the same identity both
    /// contribute.
    Binary {
        /// The operation whose partials are recomputed at playback.
        k: BinaryKernel,
        /// Identity of the first operand.
        lhs_id: u64,
        /// First operand values captured at record time.
        lhs: Vec<i64>,
        /// Identity of the second operand.
        rhs_id: u64,
        /// Second operand values captured at record time.
        rhs: Vec<i64>,
        /// Identity of the operation's output.
        out_id: u64,
    },
}

impl BackwardOp {
    /// The identity whose gradient this op reads (for the seed op, the one
    /// it writes).
    pub open spec fn out_id_spec(self) -> u64 {
        match self {
            BackwardOp::FillOnes { id, .. } => id,
            BackwardOp::Unary { out_id, .. } => out_id,
            BackwardOp::Binary { out_id, .. } => out_id,
        }
    }

    /// The identity whose gradient this op reads; see [`Self::out_id_spec`].
    pub fn out_id(&self) -> (r: u64)
        ensures
            r == self.out_id_spec(),
    {
        match self {
            BackwardOp::FillOnes { id, .. } => *id,
            BackwardOp::Unary { out_id, .. } => *out_id,
            BackwardOp::Binary { out_id, .. } => *out_id,
        }
    }
}

/// What playing one op does to a gradient store: the new store, or the
/// error of the failing step. On success the only changes are the op's
/// accumulations (and, for the seed op, its one overwrite).
pub open spec fn apply_op(m: Map<u64, Seq<i64>>, op: BackwardOp) -> Result<
    Map<u64, Seq<i64>>,
    TensorError,
> {
    match op {
        BackwardOp::FillOnes { id, len } => {
            let cur = grad_at(m, id, len as nat);
            Ok(m.insert(id, crate::buffer::ones_fx(cur.len())))
        },
        BackwardOp::Unary { k, x_id, x, out_id } => {
            let n = x@.len();
            let m1 = alloc_at(m, out_id, n);
            let g = m1[out_id];
            if g.len() != n {
                Err(TensorError::ShapeMismatch)
            } else {
                match zip_res(x@, x@, ElemOp::DfUnary(k)) {
                    Err(e) => Err(e),
                    Ok(d) => match zip_res(g, d, ElemOp::Vjp) {
                        Err(e) => Err(e),
                        Ok(p) => acc_res(m1, x_id, p),
                    },
                }
            }
        },
        BackwardOp::Binary { k, lhs_id, lhs, rhs_id, rhs, out_id } => {
            let n = lhs@.len();
            if rhs@.len() != n {
                Err(TensorError::ShapeMismatch)
            } else {
                let m1 = alloc_at(m, out_id, n);
                let g = m1[out_id];
                if g.len() != n {
                    Err(TensorError::ShapeMismatch)
                } else {
                    match zip_res(lhs@, rhs@, ElemOp::DfDxBinary(k)) {
                        Err(e) => Err(e),
                        Ok(dx) => match zip_res(g, dx, ElemOp::Vjp) {
                            Err(e) => Err(e),
                            Ok(px) => match acc_res(m1, lhs_id, px) {
                                Err(e) => Err(e),
                                Ok(m2) => match zip_res(lhs@, rhs@, ElemOp::DfDyBinary(k)) {
                                    Err(e) => Err(e),
                                    Ok(dy) => match zip_res(g, dy, ElemOp::Vjp) {
                                        Err(e) => Err(e),
                                        Ok(py) => acc_res(m2, rhs_id, py),
                                    },
                                },
                            },
                        },
                    }
                }
            }
        },
    }
}

/// Plays one op against the store. On an error the store may keep
/// accumulations the op made before failing; the backward driver then
/// discards the whole store.
fn apply_one(store: &mut Gradients, op: &BackwardOp) -> (r: Result<(), TensorError>)
    ensures
        match r {
            Ok(()) => apply_op(old(store)@, *op) == Ok::<Map<u64, Seq<i64>>, TensorError>(
                final(store)@,
            ),
            Err(e) => apply_op(old(store)@, *op) == Err::<Map<u64, Seq<i64>>, TensorError>(e),
        },
{
    match op {
        BackwardOp::FillOnes { id, len } => {
            store.fill_ones(*id, *len);
            Ok(())
        },
        BackwardOp::Unary { k, x_id, x, out_id } => {
            let n = x.len();
            let g = copy_vec(store.get_or_alloc(*out_id, n));
            if g.len() != n {
                return Err(TensorError::ShapeMismatch);
            }
            let d = match zip_apply(&ElemOp::DfUnary(*k), x, x) {
                Err(e) => return Err(e),
                Ok(d) => d,
            };
            proof {
                crate::buffer::lemma_zip_res_elems(x@, x@, ElemOp::DfUnary(*k), d@);
            }
            let p = match zip_apply(&ElemOp::Vjp, &g, &d) {
                Err(e) => return Err(e),
                Ok(p) => p,
            };
            store.accumulate(*x_id, &p)
        },
        BackwardOp::Binary { k, lhs_id, lhs, rhs_id, rhs, out_id } => {
            let n = lhs.len();
            if rhs.len() != n {
                return Err(TensorError::ShapeMismatch);
            }
            let g = copy_vec(store.get_or_alloc(*out_id, n));
            if g.len() != n {
                return Err(TensorError::ShapeMismatch);
            }
            let dx = match zip_apply(&ElemOp::DfDxBinary(*k), lhs, rhs) {
                Err(e) => return Err(e),
                Ok(dx) => dx,
            };
            proof {
                crate::buffer::lemma_zip_res_elems(lhs@, rhs@, ElemOp::DfDxBinary(*k), dx@);
            }
            let px = match zip_apply(&ElemOp::Vjp, &g, &dx) {
                Err(e) => return Err(e),
                Ok(px) => px,
            };
            match store.accumulate(*lhs_id, &px) {
                Err(e) => return Err(e),
                Ok(()) => {},
            }
            let dy = match zip_apply(&ElemOp::DfDyBinary(*k), lhs, rhs) {
                Err(e) => return Err(e),
                Ok(dy) => dy,
            };
            proof {
                crate::buffer::lemma_zip_res_elems(lhs@, rhs@, ElemOp::DfDyBinary(*k), dy@);
            }
            let py = match zip_apply(&ElemOp::Vjp, &g, &dy) {
                Err(e) => return Err(e),
                Ok(py) => py,
            };
            store.accumulate(*rhs_id, &py)
        },
    }
}

/// What playing a whole log does to a store: the last-recorded op is
/// applied first, then the rest of the log, and the first failure stops
/// the playback with its error.
pub open spec fn run_tape(m: Map<u64, Seq<i64>>, ops: Seq<BackwardOp>) -> Result<
    Map<u64, Seq<i64>>,
    TensorError,
>
    decreases ops.len(),
{
    if ops.len() == 0 {
        Ok(m)
    } else {
        match apply_op(m, ops.last()) {
            Err(e) => Err(e),
            Ok(m2) => run_tape(m2, ops.drop_last()),
        }
    }
}

/// The reverse-order law: the op recorded last is the op played first,
/// and the ops recorded before it are played afterwards, against the store
/// that op produced.
pub proof fn lemma_execute_reverse_order(m: Map<u64, Seq<i64>>, ops: Seq<BackwardOp>, op: BackwardOp)
    ensures
        run_tape(m, ops.push(op)) == (match apply_op(m, op) {
            Err(e) => Err::<Map<u64, Seq<i64>>, TensorError>(e),
            Ok(m2) => run_tape(m2, ops),
        }),
{
    assert(ops.push(op).drop_last() =~= ops);
    assert(ops.push(op).last() == op);
}

/// Playing a concatenated log plays the second log's ops first (in
/// reverse), then the first log's ops (in reverse) against what came out.
pub proof fn lemma_run_tape_concat(m: Map<u64, Seq<i64>>, a: Seq<BackwardOp>, b: Seq<BackwardOp>)
    ensures
        run_tape(m, a + b) == (match run_tape(m, b) {
            Err(e) => Err::<Map<u64, Seq<i64>>, TensorError>(e),
            Ok(m2) => run_tape(m2, a),
        }),
    decreases b.len(),
{
    if b.len() == 0 {
        assert(a + b =~= a);
    } else {
        assert((a + b).last() == b.last());
        assert((a + b).drop_last() =~= a + b.drop_last());
        match apply_op(m, b.last()) {
            Err(_) => {},
            Ok(m2) => {
                lemma_run_tape_concat(m2, a, b.drop_last());
            },
        }
    }
}

/// An ordered, append-only log of backward ops, owned by the tensor whose
/// forward computation recorded it.
#[derive(Clone)]
pub struct OwnedTape {
    ops: Vec<BackwardOp>,
}

impl OwnedTape {
    /// The recorded ops, oldest first.
    pub closed spec fn ops_spec(self) -> Seq<BackwardOp> {
        self.ops@
    }

    /// The empty tape a tensor gets when it enters tracking mode.
    pub fn new() -> (r: OwnedTape)
        ensures
            r.ops_spec() == Seq::<BackwardOp>::empty(),
    {
        let r = OwnedTape { ops: Vec::new() };
        proof {
            assert(r.ops_spec() =~= Seq::<BackwardOp>::empty());
        }
        r
    }

    /// How many ops are recorded.
    pub fn len(&self) -> (r: usize)
        ensures
            r == self.ops_spec().len(),
    {
        self.ops.len()
    }

    /// The op identities in recording order, for callers that inspect a
    /// tape's layout.
    pub fn out_ids(&self) -> (r: Vec<u64>)
        ensures
            r@.len() == self.ops_spec().len(),
            forall|i: int|
                0 <= i < r@.len() ==> r@[i] == #[trigger] self.ops_spec()[i].out_id_spec(),
    {
        let mut r: Vec<u64> = Vec::new();
        let mut i: usize = 0;
        let n = self.ops.len();
        while i < n
            invariant
                i <= n,
                n == self.ops@.len(),
                r@.len() == i,
                forall|j: int| 0 <= j < i ==> r@[j] == #[trigger] self.ops@[j].out_id_spec(),
            decreases n - i,
        {
            let id = self.ops[i].out_id();
            r.push(id);
            i = i + 1;
        }
        r
    }

    /// Appends one backward op; ops are never reordered on insertion.
    pub fn add_backward_op(&mut self, op: BackwardOp)
        ensures
            final(self).ops_spec() == old(self).ops_spec().push(op),
    {
        self.ops.push(op);
    }

    /// Concatenates `other`'s ops after this tape's ops, preserving the
    /// relative recording order of each: for a binary operation, the first
    /// operand's ops precede the second operand's ops.
    pub fn merge(&mut self, other: OwnedTape)
        ensures
            final(self).ops_spec() == old(self).ops_spec() + other.ops_spec(),
    {
        let mut other = other;
        self.ops.append(&mut other.ops);
    }

    /// Plays the recorded ops in reverse recording order against `store`,
    /// stopping at the first failure; see [`run_tape`]. A failed playback
    /// yields no store at all — a partial result is never handed back.
    pub fn execute(self, store: Gradients) -> (r: Result<Gradients, TensorError>)
        ensures
            match r {
                Ok(g) => run_tape(store@, self.ops_spec()) == Ok::<Map<u64, Seq<i64>>, TensorError>(
                    g@,
                ),
                Err(e) => run_tape(store@, self.ops_spec()) == Err::<
                    Map<u64, Seq<i64>>,
                    TensorError,
                >(e),
            },
    {
        let ops = self.ops;
        let mut st = store;
        let ghost m0 = st@;
        let mut i = ops.len();
        proof {
            assert(ops@.take(ops@.len() as int) =~= ops@);
        }
        while i > 0
            invariant
                i <= ops@.len(),
                ops@ == self.ops_spec(),
                m0 == store@,
                run_tape(m0, ops@) == run_tape(st@, ops@.take(i as int)),
            decreases i,
        {
            let op = &ops[i - 1];
            let ghost st_pre = st@;
            let step = apply_one(&mut st, op);
            proof {
                assert(ops@.take(i as int).last() == ops@[i - 1]);
                assert(ops@.take(i as int).drop_last() =~= ops@.take(i as int - 1));
            }
            match step {
                Err(e) => {
                    proof {
                        assert(run_tape(st_pre, ops@.take(i as int)) == Err::<
                            Map<u64, Seq<i64>>,
                            TensorError,
                        >(e));
                    }
                    return Err(e);
                },
                Ok(()) => {},
            }
            i = i - 1;
        }
        proof {
            assert(ops@.take(0) =~= Seq::<BackwardOp>::empty());
        }
        Ok(st)
    }
}

} // verus!
