//! Kernel derivative values and gradient-store behaviour.
//!
//! Elements are fixed-point: 1000 stands for the real number one.

use autodiff::error::TensorError;
use autodiff::kernel::{BinaryDerivative, BinaryDivKernelOp, ScalarDivKernelOp, UnaryDerivative};
use autodiff::store::Gradients;

#[test]
fn test_scalar_div_kernel_values() {
    // f(x) = x / 2.0 at x = 6.0: forward 3.0, derivative 0.5.
    let op = ScalarDivKernelOp { scalar: 2000 };
    assert_eq!(op.f(&6000), Ok(3000));
    assert_eq!(op.df(&6000), Ok(500));
}

#[test]
fn test_binary_div_kernel_values() {
    // f(x, y) = x / y at x = 6.0, y = 2.0: forward 3.0,
    // df/dx = 1/y = 0.5, df/dy = -x/y^2 = -1.5.
    let op = BinaryDivKernelOp;
    assert_eq!(op.f(&6000, &2000), Ok(3000));
    assert_eq!(op.dfdx(&6000, &2000), Ok(500));
    assert_eq!(op.dfdy(&6000, &2000), Ok(-1500));
}

#[test]
fn test_kernel_div_by_zero() {
    let op = ScalarDivKernelOp { scalar: 0 };
    assert_eq!(op.f(&6000), Err(TensorError::DivByZero));
    assert_eq!(op.df(&6000), Err(TensorError::DivByZero));
    let b = BinaryDivKernelOp;
    assert_eq!(b.f(&6000, &0), Err(TensorError::DivByZero));
    assert_eq!(b.dfdx(&6000, &0), Err(TensorError::DivByZero));
    assert_eq!(b.dfdy(&6000, &0), Err(TensorError::DivByZero));
}

#[test]
fn test_kernel_overflow() {
    let op = ScalarDivKernelOp { scalar: 1 };
    assert_eq!(op.f(&i64::MAX), Err(TensorError::Overflow));
}

#[test]
fn test_get_or_alloc_idempotent() {
    // Two lookups of one identity before any accumulation: the same
    // zero buffer both times and no duplicate allocation.
    let mut store = Gradients::new();
    let b1 = store.get_or_alloc(5, 3).clone();
    let b2 = store.get_or_alloc(5, 3).clone();
    assert_eq!(b1, vec![0i64, 0, 0]);
    assert_eq!(b1, b2);
    assert_eq!(store.len(), 1);
}

#[test]
fn test_accumulate_adds_not_overwrites() {
    let mut store = Gradients::new();
    assert_eq!(store.accumulate(7, &vec![100i64, 200]), Ok(()));
    assert_eq!(store.accumulate(7, &vec![10i64, 20]), Ok(()));
    assert_eq!(store.get(7), Some(&vec![110i64, 220]));
}

#[test]
fn test_accumulate_shape_mismatch() {
    let mut store = Gradients::new();
    assert_eq!(store.accumulate(7, &vec![1i64, 2]), Ok(()));
    assert_eq!(store.accumulate(7, &vec![1i64]), Err(TensorError::ShapeMismatch));
    assert_eq!(store.get(7), Some(&vec![1i64, 2]));
}

#[test]
fn test_accumulate_overflow_leaves_store_unchanged() {
    let mut store = Gradients::new();
    assert_eq!(store.accumulate(1, &vec![i64::MAX]), Ok(()));
    assert_eq!(store.accumulate(1, &vec![1i64]), Err(TensorError::Overflow));
    assert_eq!(store.get(1), Some(&vec![i64::MAX]));
}

#[test]
fn test_remove_and_is_empty() {
    let mut store = Gradients::new();
    assert!(store.is_empty());
    assert_eq!(store.accumulate(3, &vec![42i64]), Ok(()));
    assert!(!store.is_empty());
    assert_eq!(store.remove(3), Some(vec![42i64]));
    assert!(store.is_empty());
    assert_eq!(store.remove(3), None);
    assert_eq!(store.get(3), None);
}
