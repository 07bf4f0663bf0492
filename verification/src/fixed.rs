//! Fixed-point element arithmetic.
//!
//! An element is an `i64` that stands for the real number `v / SCALE`.
//! Division of two elements, the local derivatives of the division kernels,
//! and the vector-Jacobian product are all expressed through [`tdiv`],
//! division of mathematical integers truncated toward zero. Every exec
//! operation is checked: a quotient or sum outside the `i64` range is an
//! [`TensorError::Overflow`], a zero divisor a [`TensorError::DivByZero`].

use vstd::prelude::*;

use crate::error::TensorError;

verus! {

/// Number of `i64` steps that stand for the real number one.
pub const SCALE: i64 = 1000;

/// Whether a mathematical integer fits in an `i64`.
pub open spec fn in_i64(v: int) -> bool {
    i64::MIN <= v <= i64::MAX
}

/// Magnitude of a mathematical integer.
pub open spec fn mag(a: int) -> int {
    if a >= 0 {
        a
    } else {
        -a
    }
}

/// Integer division truncated toward zero, the rounding that `i64` and
/// `i128` division perform.
pub open spec fn tdiv(a: int, b: int) -> int
    recommends
        b != 0,
{
    if a == 0 {
        0
    } else if a > 0 && b > 0 {
        a / b
    } else if a < 0 && b < 0 {
        (a * -1) / (b * -1)
    } else if a < 0 {
        ((a * -1) / b) * -1
    } else {
        (a / (b * -1)) * -1
    }
}

/// A truncated quotient is no larger in magnitude than the dividend.
pub proof fn lemma_tdiv_mag(a: int, b: int)
    requires
        b != 0,
    ensures
        mag(tdiv(a, b)) <= mag(a),
{
    if a == 0 {
    } else if a > 0 && b > 0 {
        vstd::arithmetic::div_mod::lemma_div_pos_is_pos(a, b);
        vstd::arithmetic::div_mod::lemma_div_nonincreasing(a, b);
    } else if a < 0 && b < 0 {
        vstd::arithmetic::div_mod::lemma_div_pos_is_pos(a * -1, b * -1);
        vstd::arithmetic::div_mod::lemma_div_nonincreasing(a * -1, b * -1);
    } else if a < 0 {
        vstd::arithmetic::div_mod::lemma_div_pos_is_pos(a * -1, b);
        vstd::arithmetic::div_mod::lemma_div_nonincreasing(a * -1, b);
    } else {
        vstd::arithmetic::div_mod::lemma_div_pos_is_pos(a, b * -1);
        vstd::arithmetic::div_mod::lemma_div_nonincreasing(a, b * -1);
    }
}

/// Magnitude bound of a product from magnitude bounds of its factors.
pub proof fn lemma_mul_mag(a: int, b: int, ma: int, mb: int)
    requires
        -ma <= a <= ma,
        -mb <= b <= mb,
        0 <= ma,
        0 <= mb,
    ensures
        -(ma * mb) <= a * b <= ma * mb,
{
    assert(-(ma * mb) <= a * b <= ma * mb) by (nonlinear_arith)
        requires
            -ma <= a <= ma,
            -mb <= b <= mb,
            0 <= ma,
            0 <= mb,
    ;
}

/// Fixed-point division `x / y`: the representation of the real quotient
/// of the reals that `x` and `y` stand for, truncated toward zero.
pub open spec fn fx_div_res(x: int, y: int) -> Result<i64, TensorError> {
    if y == 0 {
        Err(TensorError::DivByZero)
    } else {
        let q = tdiv(x * SCALE, y);
        if in_i64(q) {
            Ok(q as i64)
        } else {
            Err(TensorError::Overflow)
        }
    }
}

/// Representation of `-x / y^2`, the derivative of `x / y` in `y`.
pub open spec fn fx_dfdy_res(x: int, y: int) -> Result<i64, TensorError> {
    if y == 0 {
        Err(TensorError::DivByZero)
    } else {
        let q = tdiv(-(x * SCALE * SCALE), y * y);
        if in_i64(q) {
            Ok(q as i64)
        } else {
            Err(TensorError::Overflow)
        }
    }
}

/// Fixed-point product `g * d`: one vector-Jacobian step, multiplying an
/// upstream gradient element by a local derivative element.
pub open spec fn vjp_res(g: int, d: int) -> Result<i64, TensorError> {
    let q = tdiv(g * d, SCALE as int);
    if in_i64(q) {
        Ok(q as i64)
    } else {
        Err(TensorError::Overflow)
    }
}

/// Checked element sum, the accumulation step of the gradient store.
pub open spec fn add_res(a: int, b: int) -> Result<i64, TensorError> {
    if in_i64(a + b) {
        Ok((a + b) as i64)
    } else {
        Err(TensorError::Overflow)
    }
}

/// Divides `num` by `den` truncating toward zero and narrows to `i64`.
fn div_ranged(num: i128, den: i128) -> (r: Result<i64, TensorError>)
    requires
        den != 0,
        num > i128::MIN,
    ensures
        r == (if in_i64(tdiv(num as int, den as int)) {
            Ok::<i64, TensorError>(tdiv(num as int, den as int) as i64)
        } else {
            Err::<i64, TensorError>(TensorError::Overflow)
        }),
{
    proof {
        lemma_tdiv_mag(num as int, den as int);
    }
    let qopt = num.checked_div(den);
    let q = qopt.unwrap();
    if i64::MIN as i128 <= q && q <= i64::MAX as i128 {
        Ok(q as i64)
    } else {
        Err(TensorError::Overflow)
    }
}

/// Fixed-point division of elements; see [`fx_div_res`].
pub fn fx_div(x: i64, y: i64) -> (r: Result<i64, TensorError>)
    ensures
        r == fx_div_res(x as int, y as int),
{
    if y == 0 {
        return Err(TensorError::DivByZero);
    }
    proof {
        lemma_mul_mag(x as int, SCALE as int, i64::MAX as int + 1, SCALE as int);
    }
    let num: i128 = (x as i128) * (SCALE as i128);
    div_ranged(num, y as i128)
}

/// Derivative of element division in its second operand; see [`fx_dfdy_res`].
pub fn fx_dfdy(x: i64, y: i64) -> (r: Result<i64, TensorError>)
    ensures
        r == fx_dfdy_res(x as int, y as int),
{
    if y == 0 {
        return Err(TensorError::DivByZero);
    }
    proof {
        lemma_mul_mag(y as int, y as int, i64::MAX as int + 1, i64::MAX as int + 1);
        assert((y as int) * (y as int) > 0) by (nonlinear_arith)
            requires
                y != 0,
        ;
        lemma_mul_mag(x as int, SCALE as int, i64::MAX as int + 1, SCALE as int);
        lemma_mul_mag(
            (x as int) * (SCALE as int),
            SCALE as int,
            (i64::MAX as int + 1) * (SCALE as int),
            SCALE as int,
        );
    }
    let num: i128 = -((x as i128) * (SCALE as i128) * (SCALE as i128));
    let den: i128 = (y as i128) * (y as i128);
    div_ranged(num, den)
}

/// One vector-Jacobian product step; see [`vjp_res`].
pub fn vjp(g: i64, d: i64) -> (r: Result<i64, TensorError>)
    ensures
        r == vjp_res(g as int, d as int),
{
    proof {
        lemma_mul_mag(g as int, d as int, i64::MAX as int + 1, i64::MAX as int + 1);
    }
    let num: i128 = (g as i128) * (d as i128);
    div_ranged(num, SCALE as i128)
}

/// Checked element sum; see [`add_res`].
pub fn add_elem(a: i64, b: i64) -> (r: Result<i64, TensorError>)
    ensures
        r == add_res(a as int, b as int),
{
    match a.checked_add(b) {
        Some(s) => Ok(s),
        None => Err(TensorError::Overflow),
    }
}

} // verus!
