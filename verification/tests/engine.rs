//! Tape playback, tensor tracking and the backward driver end to end.
//!
//! Elements are fixed-point: 1000 stands for the real number one.

use autodiff::backward::Backward;
use autodiff::device::{Cpu, Tensor};
use autodiff::error::TensorError;
use autodiff::kernel::{BinaryDivKernelOp, BinaryKernel, ScalarDivKernelOp, UnaryKernel};
use autodiff::store::Gradients;
use autodiff::tape::{BackwardOp, OwnedTape};

fn scalar(dev: &mut Cpu, v: i64) -> Tensor {
    dev.tensor_from(vec![], vec![v]).unwrap()
}

#[test]
fn test_execute_plays_ops_in_reverse() {
    // Recording order: first an accumulating op, then a seeding overwrite,
    // both on identity 7. Played in reverse, the overwrite runs first and
    // the accumulation lands on top of it: 1.0 + 1.0 * 1.0 = 2.0.
    // Forward order would instead end on the overwrite alone (1.0).
    let mut tape = OwnedTape::new();
    tape.add_backward_op(BackwardOp::Unary {
        k: UnaryKernel::ScalarDiv(ScalarDivKernelOp { scalar: 1000 }),
        x_id: 7,
        x: vec![2000],
        out_id: 7,
    });
    tape.add_backward_op(BackwardOp::FillOnes { id: 7, len: 1 });
    let g = tape.execute(Gradients::new()).unwrap();
    assert_eq!(g.get(7), Some(&vec![2000i64]));
}

#[test]
fn test_execute_stops_at_first_failure() {
    // In reverse order the zero-divisor op is reached first; the seed
    // recorded earlier must never run, so no store is handed back.
    let mut tape = OwnedTape::new();
    tape.add_backward_op(BackwardOp::FillOnes { id: 1, len: 1 });
    tape.add_backward_op(BackwardOp::Unary {
        k: UnaryKernel::ScalarDiv(ScalarDivKernelOp { scalar: 0 }),
        x_id: 2,
        x: vec![1000],
        out_id: 1,
    });
    assert_eq!(tape.execute(Gradients::new()).err(), Some(TensorError::DivByZero));
}

#[test]
fn test_tape_merge_ordering() {
    // z = (a / 2.0) / (b / 2.0): the merged tape must hold operand-A's
    // ops, then operand-B's ops, then the new binary op, in that order.
    let mut dev = Cpu::new();
    let a = scalar(&mut dev, 6000).trace(); // id 0
    let a2 = dev.scalar_div(a, ScalarDivKernelOp { scalar: 2000 }).unwrap(); // id 1
    let b = scalar(&mut dev, 4000).trace(); // id 2
    let b2 = dev.scalar_div(b, ScalarDivKernelOp { scalar: 2000 }).unwrap(); // id 3
    let z = dev.div(a2, b2).unwrap(); // id 4
    let tape = z.tape.expect("tracked result must own the merged tape");
    assert_eq!(tape.len(), 3);
    assert_eq!(tape.out_ids(), vec![1, 3, 4]);
}

#[test]
fn test_merge_concatenates() {
    let mut ta = OwnedTape::new();
    ta.add_backward_op(BackwardOp::FillOnes { id: 1, len: 1 });
    let mut tb = OwnedTape::new();
    tb.add_backward_op(BackwardOp::FillOnes { id: 2, len: 1 });
    tb.add_backward_op(BackwardOp::FillOnes { id: 3, len: 1 });
    ta.merge(tb);
    assert_eq!(ta.out_ids(), vec![1, 2, 3]);
}

#[test]
fn test_backward_seeds_own_gradient_to_one() {
    // A scalar with an empty tape: backward yields exactly its own
    // identity mapped to a one-element buffer of ones.
    let mut dev = Cpu::new();
    let x = scalar(&mut dev, 6000).trace();
    let g = x.try_backward().unwrap();
    assert_eq!(g.get(0), Some(&vec![1000i64]));
    assert_eq!(g.len(), 1);
}

#[test]
fn test_backward_rejects_non_scalar() {
    let mut dev = Cpu::new();
    let x = dev.tensor_from(vec![2], vec![1000, 2000]).unwrap().trace();
    assert_eq!(x.try_backward().err(), Some(TensorError::ShapeMismatch));
}

#[test]
fn test_scalar_div_backward() {
    // y = x / 2.0 at x = 6.0: dy/dx = 0.5.
    let mut dev = Cpu::new();
    let x = scalar(&mut dev, 6000).trace(); // id 0
    let y = dev.scalar_div(x, ScalarDivKernelOp { scalar: 2000 }).unwrap(); // id 1
    assert_eq!(y.data, vec![3000i64]);
    let g = y.backward();
    assert_eq!(g.get(0), Some(&vec![500i64]));
    assert_eq!(g.get(1), Some(&vec![1000i64]));
}

#[test]
fn test_div_backward() {
    // z = x / y at x = 6.0, y = 2.0: dz/dx = 0.5, dz/dy = -1.5.
    let mut dev = Cpu::new();
    let x = scalar(&mut dev, 6000).trace(); // id 0
    let y = scalar(&mut dev, 2000).trace(); // id 1
    let z = dev.div(x, y).unwrap(); // id 2
    assert_eq!(z.data, vec![3000i64]);
    let g = z.try_backward().unwrap();
    assert_eq!(g.get(0), Some(&vec![500i64]));
    assert_eq!(g.get(1), Some(&vec![-1500i64]));
    assert_eq!(g.get(2), Some(&vec![1000i64]));
}

#[test]
fn test_same_identity_accumulates() {
    // z = x / x at x = 2.0: both partials target one identity and must
    // add up — 1/x + (-x/x^2) = 0.5 + (-0.5) — not overwrite each other.
    let mut dev = Cpu::new();
    let x = scalar(&mut dev, 2000).trace(); // id 0
    let x2 = x.clone();
    let z = dev.div(x2, x).unwrap();
    assert_eq!(z.data, vec![1000i64]);
    let g = z.backward();
    assert_eq!(g.get(0), Some(&vec![500i64 - 500]));
}

#[test]
fn test_no_tape_inference_matches_tracked_forward() {
    // Untracked operands: no tape on the result, and the forward value is
    // bit-identical to the tracked variant's.
    let mut dev = Cpu::new();
    let x = scalar(&mut dev, 6000);
    let y = dev.scalar_div(x, ScalarDivKernelOp { scalar: 2000 }).unwrap();
    assert!(y.tape.is_none());

    let xt = scalar(&mut dev, 6000).trace();
    let yt = dev.scalar_div(xt, ScalarDivKernelOp { scalar: 2000 }).unwrap();
    assert!(yt.tape.is_some());
    assert_eq!(y.data, yt.data);

    let a = scalar(&mut dev, 6000);
    let b = scalar(&mut dev, 2000);
    let z = dev.div(a, b).unwrap();
    assert!(z.tape.is_none());
    assert_eq!(z.data, vec![3000i64]);
}

#[test]
fn test_div_shape_mismatch() {
    let mut dev = Cpu::new();
    let a = dev.tensor_from(vec![2], vec![1000, 2000]).unwrap();
    let b = dev.tensor_from(vec![3], vec![1000, 2000, 3000]).unwrap();
    assert_eq!(dev.div(a, b).err(), Some(TensorError::ShapeMismatch));
}

#[test]
fn test_div_by_zero_element() {
    let mut dev = Cpu::new();
    let a = scalar(&mut dev, 6000);
    let b = scalar(&mut dev, 0);
    assert_eq!(dev.div(a, b).err(), Some(TensorError::DivByZero));
}

#[test]
fn test_scalar_div_overflow() {
    let mut dev = Cpu::new();
    let x = scalar(&mut dev, i64::MAX);
    assert_eq!(
        dev.scalar_div(x, ScalarDivKernelOp { scalar: 1 }).err(),
        Some(TensorError::Overflow)
    );
}

#[test]
fn test_allocate_shapes() {
    let mut dev = Cpu::new();
    let t = dev.allocate(vec![2, 3]).unwrap();
    assert_eq!(t.dims, vec![2, 3]);
    assert_eq!(t.data, vec![0i64; 6]);
    assert!(t.tape.is_none());
    assert_eq!(t.id, 0);
    let s = dev.allocate(vec![]).unwrap();
    assert_eq!(s.id, 1);
    assert_eq!(s.data.len(), 1);
    let e = dev.allocate(vec![4, 0, 5]).unwrap();
    assert_eq!(e.data.len(), 0);
}

#[test]
fn test_allocate_count_overflow() {
    let mut dev = Cpu::new();
    assert_eq!(
        dev.allocate(vec![usize::MAX, usize::MAX]).err(),
        Some(TensorError::Overflow)
    );
}

#[test]
fn test_identities_exhausted() {
    let mut dev = Cpu { next_id: u64::MAX };
    assert_eq!(dev.allocate(vec![]).err(), Some(TensorError::Capacity));
}

#[test]
fn test_tensor_from_wrong_length() {
    let mut dev = Cpu::new();
    assert_eq!(
        dev.tensor_from(vec![2], vec![1000]).err(),
        Some(TensorError::ShapeMismatch)
    );
}

#[test]
fn test_fill_with_ones() {
    let dev = Cpu::new();
    let mut v = vec![5i64, 6, 7];
    assert_eq!(dev.try_fill_with_ones(&mut v), Ok(()));
    assert_eq!(v, vec![1000i64, 1000, 1000]);
}

#[test]
fn test_apply_kernels_through_device() {
    let dev = Cpu::new();
    let k = UnaryKernel::ScalarDiv(ScalarDivKernelOp { scalar: 2000 });
    assert_eq!(dev.apply_unary(&k, &vec![6000, 4000]), Ok(vec![3000, 2000]));
    let b = BinaryKernel::Div(BinaryDivKernelOp);
    assert_eq!(
        dev.apply_binary(&b, &vec![6000, 9000], &vec![2000, 3000]),
        Ok(vec![3000, 3000])
    );
}

#[test]
fn test_split_and_put_tape_moves_ownership() {
    // The tape moves between composed tensors: taking it detaches it from
    // the source, attaching hands it to exactly one new owner.
    let mut dev = Cpu::new();
    let x = scalar(&mut dev, 6000).trace();
    let y = dev.scalar_div(x, ScalarDivKernelOp { scalar: 2000 }).unwrap();
    let (y_plain, tape) = y.split_tape();
    assert!(y_plain.tape.is_none());
    assert_eq!(tape.len(), 1);
    let w = scalar(&mut dev, 2000);
    let w = w.put_tape(tape);
    assert!(w.tape.is_some());
    assert_eq!(w.tape.unwrap().len(), 1);
}

#[test]
fn test_backward_through_transferred_tape() {
    // Composing through an explicit tape move keeps the recording alive:
    // the moved tape still drains correctly at backward time.
    let mut dev = Cpu::new();
    let x = scalar(&mut dev, 6000).trace(); // id 0
    let y = dev.scalar_div(x, ScalarDivKernelOp { scalar: 2000 }).unwrap(); // id 1
    let (_, tape) = y.split_tape();
    // A fresh scalar adopts the tape, as a composed module's output would.
    let out = scalar(&mut dev, 3000); // id 2
    let out = out.put_tape(tape);
    let g = out.try_backward().unwrap();
    // Seed lands on the adopting tensor; the recorded op still pushes the
    // gradient of id 1 back to id 0 (zero, since id 1 got no seed).
    assert_eq!(g.get(2), Some(&vec![1000i64]));
    assert_eq!(g.get(0), Some(&vec![0i64]));
}
