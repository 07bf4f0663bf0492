//! The gradient store.
//!
//! [`Gradients`] maps a tensor identity to its accumulated gradient buffer.
//! A lookup of an absent identity allocates a zero buffer first
//! (accumulate-or-create), and every accumulation is an elementwise add,
//! never a replace. One store belongs to one backward pass; there is no
//! state across passes.

use std::collections::HashMap;

use vstd::prelude::*;

use crate::buffer::{copy_vec, ones_vec, zero_vec, zeros, ones_fx, zip_apply, zip_res, ElemOp,
    lemma_zip_zeros_add};
use crate::error::TensorError;

verus! {

/// The gradient buffer of `id` in `m`, a zero buffer of length `len` if
/// `id` has none yet.
pub open spec fn grad_at(m: Map<u64, Seq<i64>>, id: u64, len: nat) -> Seq<i64> {
    if m.contains_key(id) {
        m[id]
    } else {
        zeros(len)
    }
}

/// The store after an accumulate-or-create lookup of `id` with length
/// `len`: unchanged if present, extended by a zero buffer if absent.
pub open spec fn alloc_at(m: Map<u64, Seq<i64>>, id: u64, len: nat) -> Map<u64, Seq<i64>> {
    if m.contains_key(id) {
        m
    } else {
        m.insert(id, zeros(len))
    }
}

/// The store after accumulating `inc` into the buffer of `id`, creating a
/// zero buffer first if `id` has none: the new store, or the error of the
/// failing step.
pub open spec fn acc_res(m: Map<u64, Seq<i64>>, id: u64, inc: Seq<i64>) -> Result<
    Map<u64, Seq<i64>>,
    TensorError,
> {
    let cur = grad_at(m, id, inc.len());
    if cur.len() != inc.len() {
        Err(TensorError::ShapeMismatch)
    } else {
        match zip_res(cur, inc, ElemOp::Add) {
            Err(e) => Err(e),
            Ok(s) => Ok(m.insert(id, s)),
        }
    }
}

/// Accumulation, not overwrite: two accumulations into one identity add
/// both contributions onto what the identity held before — the second
/// never replaces the first, so two backward ops aiming at one input
/// identity combine additively.
pub proof fn lemma_accumulate_adds(
    m: Map<u64, Seq<i64>>,
    id: u64,
    p: Seq<i64>,
    q: Seq<i64>,
    m1: Map<u64, Seq<i64>>,
    m2: Map<u64, Seq<i64>>,
)
    requires
        acc_res(m, id, p) == Ok::<Map<u64, Seq<i64>>, TensorError>(m1),
        acc_res(m1, id, q) == Ok::<Map<u64, Seq<i64>>, TensorError>(m2),
    ensures
        p.len() == q.len(),
        m2.contains_key(id),
        m2[id].len() == p.len(),
        forall|i: int|
            0 <= i < p.len() ==> #[trigger] m2[id][i] == grad_at(m, id, p.len())[i] + p[i] + q[i],
{
    let cur = grad_at(m, id, p.len());
    let s1 = match zip_res(cur, p, ElemOp::Add) {
        Ok(s) => s,
        Err(_) => arbitrary(),
    };
    crate::buffer::lemma_zip_res_elems(cur, p, ElemOp::Add, s1);
    assert(m1 == m.insert(id, s1));
    let s2 = match zip_res(s1, q, ElemOp::Add) {
        Ok(s) => s,
        Err(_) => arbitrary(),
    };
    crate::buffer::lemma_zip_res_elems(s1, q, ElemOp::Add, s2);
    assert(m2 == m1.insert(id, s2));
}

/// An accumulate-or-create lookup is idempotent: a second lookup of the
/// same identity changes nothing and reads the same buffer, and before any
/// accumulation that buffer is all zeroes.
pub proof fn lemma_get_or_alloc_idempotent(m: Map<u64, Seq<i64>>, id: u64, len: nat)
    ensures
        alloc_at(alloc_at(m, id, len), id, len) == alloc_at(m, id, len),
        grad_at(alloc_at(m, id, len), id, len) == grad_at(m, id, len),
        !m.contains_key(id) ==> grad_at(alloc_at(m, id, len), id, len) == zeros(len),
{
}

/// A runtime map from tensor identity to its accumulated gradient buffer.
pub struct Gradients {
    grads: HashMap<u64, Vec<i64>>,
}

impl View for Gradients {
    type V = Map<u64, Seq<i64>>;

    closed spec fn view(&self) -> Map<u64, Seq<i64>> {
        Map::new(
            |k: u64| self.grads@.contains_key(k),
            |k: u64| self.grads@[k]@,
        )
    }
}

impl Gradients {
    /// The empty store, the start of every backward pass.
    pub fn new() -> (r: Gradients)
        ensures
            r@ == Map::<u64, Seq<i64>>::empty(),
    {
        let r = Gradients { grads: HashMap::new() };
        proof {
            assert(r@ =~= Map::<u64, Seq<i64>>::empty());
        }
        r
    }

    /// How many identities hold a gradient.
    pub fn len(&self) -> (r: usize)
        ensures
            r == self@.dom().len(),
    {
        proof {
            assert(self@.dom() =~= self.grads@.dom());
        }
        self.grads.len()
    }

    /// Whether no identity holds a gradient.
    pub fn is_empty(&self) -> (r: bool)
        ensures
            r == (self@ == Map::<u64, Seq<i64>>::empty()),
    {
        proof {
            assert(self@.dom() =~= self.grads@.dom());
            if self.grads@.len() == 0 {
                assert(self@ =~= Map::<u64, Seq<i64>>::empty());
            } else {
                assert(self@.dom().len() != 0);
                assert(self@ != Map::<u64, Seq<i64>>::empty());
            }
        }
        self.grads.is_empty()
    }

    /// The gradient buffer of `id`, if any.
    pub fn get(&self, id: u64) -> (r: Option<&Vec<i64>>)
        ensures
            match r {
                Some(v) => self@.contains_key(id) && v@ == self@[id],
                None => !self@.contains_key(id),
            },
    {
        self.grads.get(&id)
    }

    /// The buffer of `id`, creating a zero buffer of length `len` first if
    /// `id` has none (accumulate-or-create).
    pub fn get_or_alloc(&mut self, id: u64, len: usize) -> (r: &Vec<i64>)
        ensures
            final(self)@ == alloc_at(old(self)@, id, len as nat),
            final(self)@.contains_key(id),
            r@ == final(self)@[id],
    {
        if !self.grads.contains_key(&id) {
            let z = zero_vec(len);
            self.grads.insert(id, z);
            proof {
                assert(self@ =~= alloc_at(old(self)@, id, len as nat));
            }
        } else {
            proof {
                assert(self@ =~= alloc_at(old(self)@, id, len as nat));
            }
        }
        let r = self.grads.get(&id);
        r.unwrap()
    }

    /// Overwrites the buffer of `id` with ones, creating it with length
    /// `len` first if absent. This is the seeding step of the backward
    /// driver, the one write that is not an accumulation.
    pub fn fill_ones(&mut self, id: u64, len: usize)
        ensures
            final(self)@ == old(self)@.insert(id, ones_fx(grad_at(old(self)@, id, len as nat).len())),
    {
        let n: usize = match self.grads.get(&id) {
            Some(v) => v.len(),
            None => len,
        };
        let buf = ones_vec(n);
        self.grads.insert(id, buf);
        proof {
            assert(self@ =~= old(self)@.insert(id, ones_fx(grad_at(old(self)@, id, len as nat).len())));
        }
    }

    /// Adds `inc` elementwise into the buffer of `id`, creating a zero
    /// buffer first if `id` has none; see [`acc_res`]. On an error the
    /// store is unchanged.
    pub fn accumulate(&mut self, id: u64, inc: &Vec<i64>) -> (r: Result<(), TensorError>)
        ensures
            match r {
                Ok(()) => acc_res(old(self)@, id, inc@) == Ok::<Map<u64, Seq<i64>>, TensorError>(
                    final(self)@,
                ),
                Err(e) => acc_res(old(self)@, id, inc@) == Err::<Map<u64, Seq<i64>>, TensorError>(e)
                    && final(self)@ == old(self)@,
            },
    {
        let has = self.grads.contains_key(&id);
        if has {
            let sum = {
                let cur = self.grads.get(&id).unwrap();
                if cur.len() != inc.len() {
                    return Err(TensorError::ShapeMismatch);
                }
                match zip_apply(&ElemOp::Add, cur, inc) {
                    Err(e) => return Err(e),
                    Ok(s) => s,
                }
            };
            let ghost sum_view = sum@;
            self.grads.insert(id, sum);
            proof {
                assert(self@ =~= old(self)@.insert(id, sum_view));
            }
            Ok(())
        } else {
            let c = copy_vec(inc);
            self.grads.insert(id, c);
            proof {
                lemma_zip_zeros_add(inc@);
                assert(self@ =~= old(self)@.insert(id, inc@));
            }
            Ok(())
        }
    }

    /// Removes and returns the buffer of `id`, for a caller that consumes
    /// an upstream gradient instead of reading it.
    pub fn remove(&mut self, id: u64) -> (r: Option<Vec<i64>>)
        ensures
            final(self)@ == old(self)@.remove(id),
            match r {
                Some(v) => old(self)@.contains_key(id) && v@ == old(self)@[id],
                None => !old(self)@.contains_key(id),
            },
    {
        let r = self.grads.remove(&id);
        proof {
            assert(self@ =~= old(self)@.remove(id));
        }
        r
    }
}

} // verus!
