//! Kernel derivative contracts.
//!
//! Every differentiable operation supplies its forward formula and its
//! partial derivatives through [`UnaryDerivative`] or [`BinaryDerivative`];
//! the tape and the gradient store never learn which concrete operation
//! produced a backward op. The closed sets of operations the tape can
//! carry are [`UnaryKernel`] and [`BinaryKernel`].

use vstd::prelude::*;

use crate::error::TensorError;
use crate::fixed::{fx_div, fx_div_res, fx_dfdy, fx_dfdy_res, SCALE};

verus! {

/// The contract of an elementwise operation of one operand: a forward
/// value and one local derivative, both pure functions of the element.
pub trait UnaryDerivative: Sized {
    /// What `f` returns on an element.
    spec fn f_res(&self, x: int) -> Result<i64, TensorError>;

    /// What `df` returns on an element.
    spec fn df_res(&self, x: int) -> Result<i64, TensorError>;

    /// Forward value at `x`.
    fn f(&self, x: &i64) -> (r: Result<i64, TensorError>)
        ensures
            r == self.f_res(*x as int),
    ;

    /// Local derivative at `x`.
    fn df(&self, x: &i64) -> (r: Result<i64, TensorError>)
        ensures
            r == self.df_res(*x as int),
    ;
}

/// The contract of an elementwise operation of two operands: a forward
/// value and one partial derivative per operand, evaluated at the same
/// element values as the forward pass.
pub trait BinaryDerivative: Sized {
    /// What `f` returns on a pair of elements.
    spec fn f_res(&self, x: int, y: int) -> Result<i64, TensorError>;

    /// What `dfdx` returns on a pair of elements.
    spec fn dfdx_res(&self, x: int, y: int) -> Result<i64, TensorError>;

    /// What `dfdy` returns on a pair of elements.
    spec fn dfdy_res(&self, x: int, y: int) -> Result<i64, TensorError>;

    /// Forward value at `(x, y)`.
    fn f(&self, x: &i64, y: &i64) -> (r: Result<i64, TensorError>)
        ensures
            r == self.f_res(*x as int, *y as int),
    ;

    /// Partial derivative in the first operand at `(x, y)`.
    fn dfdx(&self, x: &i64, y: &i64) -> (r: Result<i64, TensorError>)
        ensures
            r == self.dfdx_res(*x as int, *y as int),
    ;

    /// Partial derivative in the second operand at `(x, y)`.
    fn dfdy(&self, x: &i64, y: &i64) -> (r: Result<i64, TensorError>)
        ensures
            r == self.dfdy_res(*x as int, *y as int),
    ;
}

/// Division of every element by one fixed scalar: `f(x) = x / scalar`,
/// `df(x) = 1 / scalar`.
#[derive(Clone, Copy, Debug, PartialEq, Eq, Structural)]
pub struct ScalarDivKernelOp {
    /// The fixed divisor, as a fixed-point element.
    pub scalar: i64,
}

impl UnaryDerivative for ScalarDivKernelOp {
    open spec fn f_res(&self, x: int) -> Result<i64, TensorError> {
        fx_div_res(x, self.scalar as int)
    }

    open spec fn df_res(&self, x: int) -> Result<i64, TensorError> {
        fx_div_res(SCALE as int, self.scalar as int)
    }

    fn f(&self, x: &i64) -> (r: Result<i64, TensorError>) {
        fx_div(*x, self.scalar)
    }

    fn df(&self, x: &i64) -> (r: Result<i64, TensorError>) {
        fx_div(SCALE, self.scalar)
    }
}

/// Elementwise division of two operands: `f(x, y) = x / y`,
/// `dfdx(x, y) = 1 / y`, `dfdy(x, y) = -x / y^2`.
#[derive(Clone, Copy, Debug, PartialEq, Eq, Structural)]
pub struct BinaryDivKernelOp;

impl BinaryDerivative for BinaryDivKernelOp {
    open spec fn f_res(&self, x: int, y: int) -> Result<i64, TensorError> {
        fx_div_res(x, y)
    }

    open spec fn dfdx_res(&self, x: int, y: int) -> Result<i64, TensorError> {
        fx_div_res(SCALE as int, y)
    }

    open spec fn dfdy_res(&self, x: int, y: int) -> Result<i64, TensorError> {
        fx_dfdy_res(x, y)
    }

    fn f(&self, x: &i64, y: &i64) -> (r: Result<i64, TensorError>) {
        fx_div(*x, *y)
    }

    fn dfdx(&self, x: &i64, y: &i64) -> (r: Result<i64, TensorError>) {
        fx_div(SCALE, *y)
    }

    fn dfdy(&self, x: &i64, y: &i64) -> (r: Result<i64, TensorError>) {
        fx_dfdy(*x, *y)
    }
}

/// The closed set of one-operand operations a tape can carry.
#[derive(Clone, Copy, Debug, PartialEq, Eq, Structural)]
pub enum UnaryKernel {
    /// Division by a fixed scalar.
    ScalarDiv(ScalarDivKernelOp),
}

impl UnaryKernel {
    /// What the forward pass of this kernel returns on an element.
    pub open spec fn f_res(self, x: int) -> Result<i64, TensorError> {
        match self {
            UnaryKernel::ScalarDiv(op) => op.f_res(x),
        }
    }

    /// What the derivative of this kernel returns on an element.
    pub open spec fn df_res(self, x: int) -> Result<i64, TensorError> {
        match self {
            UnaryKernel::ScalarDiv(op) => op.df_res(x),
        }
    }

    /// Forward value at `x`.
    pub fn f(&self, x: &i64) -> (r: Result<i64, TensorError>)
        ensures
            r == self.f_res(*x as int),
    {
        match self {
            UnaryKernel::ScalarDiv(op) => op.f(x),
        }
    }

    /// Local derivative at `x`.
    pub fn df(&self, x: &i64) -> (r: Result<i64, TensorError>)
        ensures
            r == self.df_res(*x as int),
    {
        match self {
            UnaryKernel::ScalarDiv(op) => op.df(x),
        }
    }
}

/// The closed set of two-operand operations a tape can carry.
#[derive(Clone, Copy, Debug, PartialEq, Eq, Structural)]
pub enum BinaryKernel {
    /// Elementwise division.
    Div(BinaryDivKernelOp),
}

impl BinaryKernel {
    /// What the forward pass of this kernel returns on a pair of elements.
    pub open spec fn f_res(self, x: int, y: int) -> Result<i64, TensorError> {
        match self {
            BinaryKernel::Div(op) => op.f_res(x, y),
        }
    }

    /// What the first partial derivative returns on a pair of elements.
    pub open spec fn dfdx_res(self, x: int, y: int) -> Result<i64, TensorError> {
        match self {
            BinaryKernel::Div(op) => op.dfdx_res(x, y),
        }
    }

    /// What the second partial derivative returns on a pair of elements.
    pub open spec fn dfdy_res(self, x: int, y: int) -> Result<i64, TensorError> {
        match self {
            BinaryKernel::Div(op) => op.dfdy_res(x, y),
        }
    }

    /// Forward value at `(x, y)`.
    pub fn f(&self, x: &i64, y: &i64) -> (r: Result<i64, TensorError>)
        ensures
            r == self.f_res(*x as int, *y as int),
    {
        match self {
            BinaryKernel::Div(op) => op.f(x, y),
        }
    }

    /// Partial derivative in the first operand at `(x, y)`.
    pub fn dfdx(&self, x: &i64, y: &i64) -> (r: Result<i64, TensorError>)
        ensures
            r == self.dfdx_res(*x as int, *y as int),
    {
        match self {
            BinaryKernel::Div(op) => op.dfdx(x, y),
        }
    }

    /// Partial derivative in the second operand at `(x, y)`.
    pub fn dfdy(&self, x: &i64, y: &i64) -> (r: Result<i64, TensorError>)
        ensures
            r == self.dfdy_res(*x as int, *y as int),
    {
        match self {
            BinaryKernel::Div(op) => op.dfdy(x, y),
        }
    }
}

} // verus!
