//! The arithmetic operators of a promise: with a scalar, and with a tensor or a
//! promise of the same shape. Each builds a promise and computes nothing; an
//! operand taken by value is read as it would be by reference.
use vstd::prelude::*;
use vstd::std_specs::ops::{AddSpecImpl, DivSpecImpl, MulSpecImpl, SubSpecImpl};
use std::ops::{Add, Div, Mul, Sub};
use crate::definitions::NumberLike;
use crate::ops::impl_compute_op::{BinaryKind, OpScalarKind};
use crate::ops::impl_op::{
    add_scalar_impl, add_tensor_impl, div_scalar_impl, div_tensor_impl, is_operation,
    is_scalar_operation, mul_scalar_impl, mul_tensor_impl, operands_agree, sub_scalar_impl,
    sub_tensor_impl, ComputationDef,
};
use crate::promise::{CachedTensorPromise, TensorPromise};
use crate::tensor::Tensor;

verus! {

impl<T: NumberLike> Add<T> for &TensorPromise<T> {
    type Output = TensorPromise<T>;

    /// The promise of `self + rhs` for a scalar `rhs`.
    #[inline]
    fn add(self, rhs: T) -> (p: TensorPromise<T>)
        ensures
            is_scalar_operation(p, OpScalarKind::Sum(rhs), self.node_spec()),
    {
        add_scalar_impl(self, rhs)
    }
}

impl<T: NumberLike> AddSpecImpl<T> for &TensorPromise<T> {
    open spec fn obeys_add_spec() -> bool {
        false
    }

    open spec fn add_req(self, rhs: T) -> bool {
        self.node_spec().wf()
    }

    open spec fn add_spec(self, rhs: T) -> TensorPromise<T> {
        arbitrary()
    }
}

impl<T: NumberLike> Add<T> for TensorPromise<T> {
    type Output = TensorPromise<T>;

    /// The promise of `self + rhs` for a scalar `rhs`.
    #[inline]
    fn add(self, rhs: T) -> (p: TensorPromise<T>)
        ensures
            is_scalar_operation(p, OpScalarKind::Sum(rhs), self.node_spec()),
    {
        add_scalar_impl(&self, rhs)
    }
}

impl<T: NumberLike> AddSpecImpl<T> for TensorPromise<T> {
    open spec fn obeys_add_spec() -> bool {
        false
    }

    open spec fn add_req(self, rhs: T) -> bool {
        self.node_spec().wf()
    }

    open spec fn add_spec(self, rhs: T) -> TensorPromise<T> {
        arbitrary()
    }
}

impl<T: NumberLike> Sub<T> for &TensorPromise<T> {
    type Output = TensorPromise<T>;

    /// The promise of `self - rhs` for a scalar `rhs`.
    #[inline]
    fn sub(self, rhs: T) -> (p: TensorPromise<T>)
        ensures
            is_scalar_operation(p, OpScalarKind::Sub(rhs), self.node_spec()),
    {
        sub_scalar_impl(self, rhs)
    }
}

impl<T: NumberLike> SubSpecImpl<T> for &TensorPromise<T> {
    open spec fn obeys_sub_spec() -> bool {
        false
    }

    open spec fn sub_req(self, rhs: T) -> bool {
        self.node_spec().wf()
    }

    open spec fn sub_spec(self, rhs: T) -> TensorPromise<T> {
        arbitrary()
    }
}

impl<T: NumberLike> Sub<T> for TensorPromise<T> {
    type Output = TensorPromise<T>;

    /// The promise of `self - rhs` for a scalar `rhs`.
    #[inline]
    fn sub(self, rhs: T) -> (p: TensorPromise<T>)
        ensures
            is_scalar_operation(p, OpScalarKind::Sub(rhs), self.node_spec()),
    {
        sub_scalar_impl(&self, rhs)
    }
}

impl<T: NumberLike> SubSpecImpl<T> for TensorPromise<T> {
    open spec fn obeys_sub_spec() -> bool {
        false
    }

    open spec fn sub_req(self, rhs: T) -> bool {
        self.node_spec().wf()
    }

    open spec fn sub_spec(self, rhs: T) -> TensorPromise<T> {
        arbitrary()
    }
}

impl<T: NumberLike> Mul<T> for &TensorPromise<T> {
    type Output = TensorPromise<T>;

    /// The promise of `self * rhs` for a scalar `rhs`.
    #[inline]
    fn mul(self, rhs: T) -> (p: TensorPromise<T>)
        ensures
            is_scalar_operation(p, OpScalarKind::Mul(rhs), self.node_spec()),
    {
        mul_scalar_impl(self, rhs)
    }
}

impl<T: NumberLike> MulSpecImpl<T> for &TensorPromise<T> {
    open spec fn obeys_mul_spec() -> bool {
        false
    }

    open spec fn mul_req(self, rhs: T) -> bool {
        self.node_spec().wf()
    }

    open spec fn mul_spec(self, rhs: T) -> TensorPromise<T> {
        arbitrary()
    }
}

impl<T: NumberLike> Mul<T> for TensorPromise<T> {
    type Output = TensorPromise<T>;

    /// The promise of `self * rhs` for a scalar `rhs`.
    #[inline]
    fn mul(self, rhs: T) -> (p: TensorPromise<T>)
        ensures
            is_scalar_operation(p, OpScalarKind::Mul(rhs), self.node_spec()),
    {
        mul_scalar_impl(&self, rhs)
    }
}

impl<T: NumberLike> MulSpecImpl<T> for TensorPromise<T> {
    open spec fn obeys_mul_spec() -> bool {
        false
    }

    open spec fn mul_req(self, rhs: T) -> bool {
        self.node_spec().wf()
    }

    open spec fn mul_spec(self, rhs: T) -> TensorPromise<T> {
        arbitrary()
    }
}

impl<T: NumberLike> Div<T> for &TensorPromise<T> {
    type Output = TensorPromise<T>;

    /// The promise of `self / rhs` for a scalar `rhs`.
    #[inline]
    fn div(self, rhs: T) -> (p: TensorPromise<T>)
        ensures
            is_scalar_operation(p, OpScalarKind::Div(rhs), self.node_spec()),
    {
        div_scalar_impl(self, rhs)
    }
}

impl<T: NumberLike> DivSpecImpl<T> for &TensorPromise<T> {
    open spec fn obeys_div_spec() -> bool {
        false
    }

    open spec fn div_req(self, rhs: T) -> bool {
        self.node_spec().wf()
    }

    open spec fn div_spec(self, rhs: T) -> TensorPromise<T> {
        arbitrary()
    }
}

impl<T: NumberLike> Div<T> for TensorPromise<T> {
    type Output = TensorPromise<T>;

    /// The promise of `self / rhs` for a scalar `rhs`.
    #[inline]
    fn div(self, rhs: T) -> (p: TensorPromise<T>)
        ensures
            is_scalar_operation(p, OpScalarKind::Div(rhs), self.node_spec()),
    {
        div_scalar_impl(&self, rhs)
    }
}

impl<T: NumberLike> DivSpecImpl<T> for TensorPromise<T> {
    open spec fn obeys_div_spec() -> bool {
        false
    }

    open spec fn div_req(self, rhs: T) -> bool {
        self.node_spec().wf()
    }

    open spec fn div_spec(self, rhs: T) -> TensorPromise<T> {
        arbitrary()
    }
}

impl<T: NumberLike> Add<&Tensor<T>> for &TensorPromise<T> {
    type Output = TensorPromise<T>;

    /// The promise of `self + rhs`, element by element.
    #[inline]
    fn add(self, rhs: &Tensor<T>) -> (p: TensorPromise<T>)
        ensures
            is_operation(p, BinaryKind::Add, self.node_spec(), rhs.node_spec()),
    {
        add_tensor_impl(self, rhs)
    }
}

impl<T: NumberLike> AddSpecImpl<&Tensor<T>> for &TensorPromise<T> {
    open spec fn obeys_add_spec() -> bool {
        false
    }

    open spec fn add_req(self, rhs: &Tensor<T>) -> bool {
        operands_agree(self.node_spec(), rhs.node_spec())
    }

    open spec fn add_spec(self, rhs: &Tensor<T>) -> TensorPromise<T> {
        arbitrary()
    }
}

impl<T: NumberLike> Add<Tensor<T>> for &TensorPromise<T> {
    type Output = TensorPromise<T>;

    /// The promise of `self + rhs`, element by element.
    #[inline]
    fn add(self, rhs: Tensor<T>) -> (p: TensorPromise<T>)
        ensures
            is_operation(p, BinaryKind::Add, self.node_spec(), rhs.node_spec()),
    {
        add_tensor_impl(self, &rhs)
    }
}

impl<T: NumberLike> AddSpecImpl<Tensor<T>> for &TensorPromise<T> {
    open spec fn obeys_add_spec() -> bool {
        false
    }

    open spec fn add_req(self, rhs: Tensor<T>) -> bool {
        operands_agree(self.node_spec(), rhs.node_spec())
    }

    open spec fn add_spec(self, rhs: Tensor<T>) -> TensorPromise<T> {
        arbitrary()
    }
}

impl<T: NumberLike> Add<&Tensor<T>> for TensorPromise<T> {
    type Output = TensorPromise<T>;

    /// The promise of `self + rhs`, element by element.
    #[inline]
    fn add(self, rhs: &Tensor<T>) -> (p: TensorPromise<T>)
        ensures
            is_operation(p, BinaryKind::Add, self.node_spec(), rhs.node_spec()),
    {
        add_tensor_impl(&self, rhs)
    }
}

impl<T: NumberLike> AddSpecImpl<&Tensor<T>> for TensorPromise<T> {
    open spec fn obeys_add_spec() -> bool {
        false
    }

    open spec fn add_req(self, rhs: &Tensor<T>) -> bool {
        operands_agree(self.node_spec(), rhs.node_spec())
    }

    open spec fn add_spec(self, rhs: &Tensor<T>) -> TensorPromise<T> {
        arbitrary()
    }
}

impl<T: NumberLike> Add<Tensor<T>> for TensorPromise<T> {
    type Output = TensorPromise<T>;

    /// The promise of `self + rhs`, element by element.
    #[inline]
    fn add(self, rhs: Tensor<T>) -> (p: TensorPromise<T>)
        ensures
            is_operation(p, BinaryKind::Add, self.node_spec(), rhs.node_spec()),
    {
        add_tensor_impl(&self, &rhs)
    }
}

impl<T: NumberLike> AddSpecImpl<Tensor<T>> for TensorPromise<T> {
    open spec fn obeys_add_spec() -> bool {
        false
    }

    open spec fn add_req(self, rhs: Tensor<T>) -> bool {
        operands_agree(self.node_spec(), rhs.node_spec())
    }

    open spec fn add_spec(self, rhs: Tensor<T>) -> TensorPromise<T> {
        arbitrary()
    }
}

impl<T: NumberLike> Sub<&Tensor<T>> for &TensorPromise<T> {
    type Output = TensorPromise<T>;

    /// The promise of `self - rhs`, element by element.
    #[inline]
    fn sub(self, rhs: &Tensor<T>) -> (p: TensorPromise<T>)
        ensures
            is_operation(p, BinaryKind::Sub, self.node_spec(), rhs.node_spec()),
    {
        sub_tensor_impl(self, rhs)
    }
}

impl<T: NumberLike> SubSpecImpl<&Tensor<T>> for &TensorPromise<T> {
    open spec fn obeys_sub_spec() -> bool {
        false
    }

    open spec fn sub_req(self, rhs: &Tensor<T>) -> bool {
        operands_agree(self.node_spec(), rhs.node_spec())
    }

    open spec fn sub_spec(self, rhs: &Tensor<T>) -> TensorPromise<T> {
        arbitrary()
    }
}

impl<T: NumberLike> Sub<Tensor<T>> for &TensorPromise<T> {
    type Output = TensorPromise<T>;

    /// The promise of `self - rhs`, element by element.
    #[inline]
    fn sub(self, rhs: Tensor<T>) -> (p: TensorPromise<T>)
        ensures
            is_operation(p, BinaryKind::Sub, self.node_spec(), rhs.node_spec()),
    {
        sub_tensor_impl(self, &rhs)
    }
}

impl<T: NumberLike> SubSpecImpl<Tensor<T>> for &TensorPromise<T> {
    open spec fn obeys_sub_spec() -> bool {
        false
    }

    open spec fn sub_req(self, rhs: Tensor<T>) -> bool {
        operands_agree(self.node_spec(), rhs.node_spec())
    }

    open spec fn sub_spec(self, rhs: Tensor<T>) -> TensorPromise<T> {
        arbitrary()
    }
}

impl<T: NumberLike> Sub<&Tensor<T>> for TensorPromise<T> {
    type Output = TensorPromise<T>;

    /// The promise of `self - rhs`, element by element.
    #[inline]
    fn sub(self, rhs: &Tensor<T>) -> (p: TensorPromise<T>)
        ensures
            is_operation(p, BinaryKind::Sub, self.node_spec(), rhs.node_spec()),
    {
        sub_tensor_impl(&self, rhs)
    }
}

impl<T: NumberLike> SubSpecImpl<&Tensor<T>> for TensorPromise<T> {
    open spec fn obeys_sub_spec() -> bool {
        false
    }

    open spec fn sub_req(self, rhs: &Tensor<T>) -> bool {
        operands_agree(self.node_spec(), rhs.node_spec())
    }

    open spec fn sub_spec(self, rhs: &Tensor<T>) -> TensorPromise<T> {
        arbitrary()
    }
}

impl<T: NumberLike> Sub<Tensor<T>> for TensorPromise<T> {
    type Output = TensorPromise<T>;

    /// The promise of `self - rhs`, element by element.
    #[inline]
    fn sub(self, rhs: Tensor<T>) -> (p: TensorPromise<T>)
        ensures
            is_operation(p, BinaryKind::Sub, self.node_spec(), rhs.node_spec()),
    {
        sub_tensor_impl(&self, &rhs)
    }
}

impl<T: NumberLike> SubSpecImpl<Tensor<T>> for TensorPromise<T> {
    open spec fn obeys_sub_spec() -> bool {
        false
    }

    open spec fn sub_req(self, rhs: Tensor<T>) -> bool {
        operands_agree(self.node_spec(), rhs.node_spec())
    }

    open spec fn sub_spec(self, rhs: Tensor<T>) -> TensorPromise<T> {
        arbitrary()
    }
}

impl<T: NumberLike> Mul<&Tensor<T>> for &TensorPromise<T> {
    type Output = TensorPromise<T>;

    /// The promise of `self * rhs`, element by element.
    #[inline]
    fn mul(self, rhs: &Tensor<T>) -> (p: TensorPromise<T>)
        ensures
            is_operation(p, BinaryKind::Mul, self.node_spec(), rhs.node_spec()),
    {
        mul_tensor_impl(self, rhs)
    }
}

impl<T: NumberLike> MulSpecImpl<&Tensor<T>> for &TensorPromise<T> {
    open spec fn obeys_mul_spec() -> bool {
        false
    }

    open spec fn mul_req(self, rhs: &Tensor<T>) -> bool {
        operands_agree(self.node_spec(), rhs.node_spec())
    }

    open spec fn mul_spec(self, rhs: &Tensor<T>) -> TensorPromise<T> {
        arbitrary()
    }
}

impl<T: NumberLike> Mul<Tensor<T>> for &TensorPromise<T> {
    type Output = TensorPromise<T>;

    /// The promise of `self * rhs`, element by element.
    #[inline]
    fn mul(self, rhs: Tensor<T>) -> (p: TensorPromise<T>)
        ensures
            is_operation(p, BinaryKind::Mul, self.node_spec(), rhs.node_spec()),
    {
        mul_tensor_impl(self, &rhs)
    }
}

impl<T: NumberLike> MulSpecImpl<Tensor<T>> for &TensorPromise<T> {
    open spec fn obeys_mul_spec() -> bool {
        false
    }

    open spec fn mul_req(self, rhs: Tensor<T>) -> bool {
        operands_agree(self.node_spec(), rhs.node_spec())
    }

    open spec fn mul_spec(self, rhs: Tensor<T>) -> TensorPromise<T> {
        arbitrary()
    }
}

impl<T: NumberLike> Mul<&Tensor<T>> for TensorPromise<T> {
    type Output = TensorPromise<T>;

    /// The promise of `self * rhs`, element by element.
    #[inline]
    fn mul(self, rhs: &Tensor<T>) -> (p: TensorPromise<T>)
        ensures
            is_operation(p, BinaryKind::Mul, self.node_spec(), rhs.node_spec()),
    {
        mul_tensor_impl(&self, rhs)
    }
}

impl<T: NumberLike> MulSpecImpl<&Tensor<T>> for TensorPromise<T> {
    open spec fn obeys_mul_spec() -> bool {
        false
    }

    open spec fn mul_req(self, rhs: &Tensor<T>) -> bool {
        operands_agree(self.node_spec(), rhs.node_spec())
    }

    open spec fn mul_spec(self, rhs: &Tensor<T>) -> TensorPromise<T> {
        arbitrary()
    }
}

impl<T: NumberLike> Mul<Tensor<T>> for TensorPromise<T> {
    type Output = TensorPromise<T>;

    /// The promise of `self * rhs`, element by element.
    #[inline]
    fn mul(self, rhs: Tensor<T>) -> (p: TensorPromise<T>)
        ensures
            is_operation(p, BinaryKind::Mul, self.node_spec(), rhs.node_spec()),
    {
        mul_tensor_impl(&self, &rhs)
    }
}

impl<T: NumberLike> MulSpecImpl<Tensor<T>> for TensorPromise<T> {
    open spec fn obeys_mul_spec() -> bool {
        false
    }

    open spec fn mul_req(self, rhs: Tensor<T>) -> bool {
        operands_agree(self.node_spec(), rhs.node_spec())
    }

    open spec fn mul_spec(self, rhs: Tensor<T>) -> TensorPromise<T> {
        arbitrary()
    }
}

impl<T: NumberLike> Div<&Tensor<T>> for &TensorPromise<T> {
    type Output = TensorPromise<T>;

    /// The promise of `self / rhs`, element by element.
    #[inline]
    fn div(self, rhs: &Tensor<T>) -> (p: TensorPromise<T>)
        ensures
            is_operation(p, BinaryKind::Div, self.node_spec(), rhs.node_spec()),
    {
        div_tensor_impl(self, rhs)
    }
}

impl<T: NumberLike> DivSpecImpl<&Tensor<T>> for &TensorPromise<T> {
    open spec fn obeys_div_spec() -> bool {
        false
    }

    open spec fn div_req(self, rhs: &Tensor<T>) -> bool {
        operands_agree(self.node_spec(), rhs.node_spec())
    }

    open spec fn div_spec(self, rhs: &Tensor<T>) -> TensorPromise<T> {
        arbitrary()
    }
}

impl<T: NumberLike> Div<Tensor<T>> for &TensorPromise<T> {
    type Output = TensorPromise<T>;

    /// The promise of `self / rhs`, element by element.
    #[inline]
    fn div(self, rhs: Tensor<T>) -> (p: TensorPromise<T>)
        ensures
            is_operation(p, BinaryKind::Div, self.node_spec(), rhs.node_spec()),
    {
        div_tensor_impl(self, &rhs)
    }
}

impl<T: NumberLike> DivSpecImpl<Tensor<T>> for &TensorPromise<T> {
    open spec fn obeys_div_spec() -> bool {
        false
    }

    open spec fn div_req(self, rhs: Tensor<T>) -> bool {
        operands_agree(self.node_spec(), rhs.node_spec())
    }

    open spec fn div_spec(self, rhs: Tensor<T>) -> TensorPromise<T> {
        arbitrary()
    }
}

impl<T: NumberLike> Div<&Tensor<T>> for TensorPromise<T> {
    type Output = TensorPromise<T>;

    /// The promise of `self / rhs`, element by element.
    #[inline]
    fn div(self, rhs: &Tensor<T>) -> (p: TensorPromise<T>)
        ensures
            is_operation(p, BinaryKind::Div, self.node_spec(), rhs.node_spec()),
    {
        div_tensor_impl(&self, rhs)
    }
}

impl<T: NumberLike> DivSpecImpl<&Tensor<T>> for TensorPromise<T> {
    open spec fn obeys_div_spec() -> bool {
        false
    }

    open spec fn div_req(self, rhs: &Tensor<T>) -> bool {
        operands_agree(self.node_spec(), rhs.node_spec())
    }

    open spec fn div_spec(self, rhs: &Tensor<T>) -> TensorPromise<T> {
        arbitrary()
    }
}

impl<T: NumberLike> Div<Tensor<T>> for TensorPromise<T> {
    type Output = TensorPromise<T>;

    /// The promise of `self / rhs`, element by element.
    #[inline]
    fn div(self, rhs: Tensor<T>) -> (p: TensorPromise<T>)
        ensures
            is_operation(p, BinaryKind::Div, self.node_spec(), rhs.node_spec()),
    {
        div_tensor_impl(&self, &rhs)
    }
}

impl<T: NumberLike> DivSpecImpl<Tensor<T>> for TensorPromise<T> {
    open spec fn obeys_div_spec() -> bool {
        false
    }

    open spec fn div_req(self, rhs: Tensor<T>) -> bool {
        operands_agree(self.node_spec(), rhs.node_spec())
    }

    open spec fn div_spec(self, rhs: Tensor<T>) -> TensorPromise<T> {
        arbitrary()
    }
}

impl<T: NumberLike> Add<&TensorPromise<T>> for &TensorPromise<T> {
    type Output = TensorPromise<T>;

    /// The promise of `self + rhs`, element by element.
    #[inline]
    fn add(self, rhs: &TensorPromise<T>) -> (p: TensorPromise<T>)
        ensures
            is_operation(p, BinaryKind::Add, self.node_spec(), rhs.node_spec()),
    {
        add_tensor_impl(self, rhs)
    }
}

impl<T: NumberLike> AddSpecImpl<&TensorPromise<T>> for &TensorPromise<T> {
    open spec fn obeys_add_spec() -> bool {
        false
    }

    open spec fn add_req(self, rhs: &TensorPromise<T>) -> bool {
        operands_agree(self.node_spec(), rhs.node_spec())
    }

    open spec fn add_spec(self, rhs: &TensorPromise<T>) -> TensorPromise<T> {
        arbitrary()
    }
}

impl<T: NumberLike> Add<TensorPromise<T>> for &TensorPromise<T> {
    type Output = TensorPromise<T>;

    /// The promise of `self + rhs`, element by element.
    #[inline]
    fn add(self, rhs: TensorPromise<T>) -> (p: TensorPromise<T>)
        ensures
            is_operation(p, BinaryKind::Add, self.node_spec(), rhs.node_spec()),
    {
        add_tensor_impl(self, &rhs)
    }
}

impl<T: NumberLike> AddSpecImpl<TensorPromise<T>> for &TensorPromise<T> {
    open spec fn obeys_add_spec() -> bool {
        false
    }

    open spec fn add_req(self, rhs: TensorPromise<T>) -> bool {
        operands_agree(self.node_spec(), rhs.node_spec())
    }

    open spec fn add_spec(self, rhs: TensorPromise<T>) -> TensorPromise<T> {
        arbitrary()
    }
}

impl<T: NumberLike> Add<&TensorPromise<T>> for TensorPromise<T> {
    type Output = TensorPromise<T>;

    /// The promise of `self + rhs`, element by element.
    #[inline]
    fn add(self, rhs: &TensorPromise<T>) -> (p: TensorPromise<T>)
        ensures
            is_operation(p, BinaryKind::Add, self.node_spec(), rhs.node_spec()),
    {
        add_tensor_impl(&self, rhs)
    }
}

impl<T: NumberLike> AddSpecImpl<&TensorPromise<T>> for TensorPromise<T> {
    open spec fn obeys_add_spec() -> bool {
        false
    }

    open spec fn add_req(self, rhs: &TensorPromise<T>) -> bool {
        operands_agree(self.node_spec(), rhs.node_spec())
    }

    open spec fn add_spec(self, rhs: &TensorPromise<T>) -> TensorPromise<T> {
        arbitrary()
    }
}

impl<T: NumberLike> Add<TensorPromise<T>> for TensorPromise<T> {
    type Output = TensorPromise<T>;

    /// The promise of `self + rhs`, element by element.
    #[inline]
    fn add(self, rhs: TensorPromise<T>) -> (p: TensorPromise<T>)
        ensures
            is_operation(p, BinaryKind::Add, self.node_spec(), rhs.node_spec()),
    {
        add_tensor_impl(&self, &rhs)
    }
}

impl<T: NumberLike> AddSpecImpl<TensorPromise<T>> for TensorPromise<T> {
    open spec fn obeys_add_spec() -> bool {
        false
    }

    open spec fn add_req(self, rhs: TensorPromise<T>) -> bool {
        operands_agree(self.node_spec(), rhs.node_spec())
    }

    open spec fn add_spec(self, rhs: TensorPromise<T>) -> TensorPromise<T> {
        arbitrary()
    }
}

impl<T: NumberLike> Sub<&TensorPromise<T>> for &TensorPromise<T> {
    type Output = TensorPromise<T>;

    /// The promise of `self - rhs`, element by element.
    #[inline]
    fn sub(self, rhs: &TensorPromise<T>) -> (p: TensorPromise<T>)
        ensures
            is_operation(p, BinaryKind::Sub, self.node_spec(), rhs.node_spec()),
    {
        sub_tensor_impl(self, rhs)
    }
}

impl<T: NumberLike> SubSpecImpl<&TensorPromise<T>> for &TensorPromise<T> {
    open spec fn obeys_sub_spec() -> bool {
        false
    }

    open spec fn sub_req(self, rhs: &TensorPromise<T>) -> bool {
        operands_agree(self.node_spec(), rhs.node_spec())
    }

    open spec fn sub_spec(self, rhs: &TensorPromise<T>) -> TensorPromise<T> {
        arbitrary()
    }
}

impl<T: NumberLike> Sub<TensorPromise<T>> for &TensorPromise<T> {
    type Output = TensorPromise<T>;

    /// The promise of `self - rhs`, element by element.
    #[inline]
    fn sub(self, rhs: TensorPromise<T>) -> (p: TensorPromise<T>)
        ensures
            is_operation(p, BinaryKind::Sub, self.node_spec(), rhs.node_spec()),
    {
        sub_tensor_impl(self, &rhs)
    }
}

impl<T: NumberLike> SubSpecImpl<TensorPromise<T>> for &TensorPromise<T> {
    open spec fn obeys_sub_spec() -> bool {
        false
    }

    open spec fn sub_req(self, rhs: TensorPromise<T>) -> bool {
        operands_agree(self.node_spec(), rhs.node_spec())
    }

    open spec fn sub_spec(self, rhs: TensorPromise<T>) -> TensorPromise<T> {
        arbitrary()
    }
}

impl<T: NumberLike> Sub<&TensorPromise<T>> for TensorPromise<T> {
    type Output = TensorPromise<T>;

    /// The promise of `self - rhs`, element by element.
    #[inline]
    fn sub(self, rhs: &TensorPromise<T>) -> (p: TensorPromise<T>)
        ensures
            is_operation(p, BinaryKind::Sub, self.node_spec(), rhs.node_spec()),
    {
        sub_tensor_impl(&self, rhs)
    }
}

impl<T: NumberLike> SubSpecImpl<&TensorPromise<T>> for TensorPromise<T> {
    open spec fn obeys_sub_spec() -> bool {
        false
    }

    open spec fn sub_req(self, rhs: &TensorPromise<T>) -> bool {
        operands_agree(self.node_spec(), rhs.node_spec())
    }

    open spec fn sub_spec(self, rhs: &TensorPromise<T>) -> TensorPromise<T> {
        arbitrary()
    }
}

impl<T: NumberLike> Sub<TensorPromise<T>> for TensorPromise<T> {
    type Output = TensorPromise<T>;

    /// The promise of `self - rhs`, element by element.
    #[inline]
    fn sub(self, rhs: TensorPromise<T>) -> (p: TensorPromise<T>)
        ensures
            is_operation(p, BinaryKind::Sub, self.node_spec(), rhs.node_spec()),
    {
        sub_tensor_impl(&self, &rhs)
    }
}

impl<T: NumberLike> SubSpecImpl<TensorPromise<T>> for TensorPromise<T> {
    open spec fn obeys_sub_spec() -> bool {
        false
    }

    open spec fn sub_req(self, rhs: TensorPromise<T>) -> bool {
        operands_agree(self.node_spec(), rhs.node_spec())
    }

    open spec fn sub_spec(self, rhs: TensorPromise<T>) -> TensorPromise<T> {
        arbitrary()
    }
}

impl<T: NumberLike> Mul<&TensorPromise<T>> for &TensorPromise<T> {
    type Output = TensorPromise<T>;

    /// The promise of `self * rhs`, element by element.
    #[inline]
    fn mul(self, rhs: &TensorPromise<T>) -> (p: TensorPromise<T>)
        ensures
            is_operation(p, BinaryKind::Mul, self.node_spec(), rhs.node_spec()),
    {
        mul_tensor_impl(self, rhs)
    }
}

impl<T: NumberLike> MulSpecImpl<&TensorPromise<T>> for &TensorPromise<T> {
    open spec fn obeys_mul_spec() -> bool {
        false
    }

    open spec fn mul_req(self, rhs: &TensorPromise<T>) -> bool {
        operands_agree(self.node_spec(), rhs.node_spec())
    }

    open spec fn mul_spec(self, rhs: &TensorPromise<T>) -> TensorPromise<T> {
        arbitrary()
    }
}

impl<T: NumberLike> Mul<TensorPromise<T>> for &TensorPromise<T> {
    type Output = TensorPromise<T>;

    /// The promise of `self * rhs`, element by element.
    #[inline]
    fn mul(self, rhs: TensorPromise<T>) -> (p: TensorPromise<T>)
        ensures
            is_operation(p, BinaryKind::Mul, self.node_spec(), rhs.node_spec()),
    {
        mul_tensor_impl(self, &rhs)
    }
}

impl<T: NumberLike> MulSpecImpl<TensorPromise<T>> for &TensorPromise<T> {
    open spec fn obeys_mul_spec() -> bool {
        false
    }

    open spec fn mul_req(self, rhs: TensorPromise<T>) -> bool {
        operands_agree(self.node_spec(), rhs.node_spec())
    }

    open spec fn mul_spec(self, rhs: TensorPromise<T>) -> TensorPromise<T> {
        arbitrary()
    }
}

impl<T: NumberLike> Mul<&TensorPromise<T>> for TensorPromise<T> {
    type Output = TensorPromise<T>;

    /// The promise of `self * rhs`, element by element.
    #[inline]
    fn mul(self, rhs: &TensorPromise<T>) -> (p: TensorPromise<T>)
        ensures
            is_operation(p, BinaryKind::Mul, self.node_spec(), rhs.node_spec()),
    {
        mul_tensor_impl(&self, rhs)
    }
}

impl<T: NumberLike> MulSpecImpl<&TensorPromise<T>> for TensorPromise<T> {
    open spec fn obeys_mul_spec() -> bool {
        false
    }

    open spec fn mul_req(self, rhs: &TensorPromise<T>) -> bool {
        operands_agree(self.node_spec(), rhs.node_spec())
    }

    open spec fn mul_spec(self, rhs: &TensorPromise<T>) -> TensorPromise<T> {
        arbitrary()
    }
}

impl<T: NumberLike> Mul<TensorPromise<T>> for TensorPromise<T> {
    type Output = TensorPromise<T>;

    /// The promise of `self * rhs`, element by element.
    #[inline]
    fn mul(self, rhs: TensorPromise<T>) -> (p: TensorPromise<T>)
        ensures
            is_operation(p, BinaryKind::Mul, self.node_spec(), rhs.node_spec()),
    {
        mul_tensor_impl(&self, &rhs)
    }
}

impl<T: NumberLike> MulSpecImpl<TensorPromise<T>> for TensorPromise<T> {
    open spec fn obeys_mul_spec() -> bool {
        false
    }

    open spec fn mul_req(self, rhs: TensorPromise<T>) -> bool {
        operands_agree(self.node_spec(), rhs.node_spec())
    }

    open spec fn mul_spec(self, rhs: TensorPromise<T>) -> TensorPromise<T> {
        arbitrary()
    }
}

impl<T: NumberLike> Div<&TensorPromise<T>> for &TensorPromise<T> {
    type Output = TensorPromise<T>;

    /// The promise of `self / rhs`, element by element.
    #[inline]
    fn div(self, rhs: &TensorPromise<T>) -> (p: TensorPromise<T>)
        ensures
            is_operation(p, BinaryKind::Div, self.node_spec(), rhs.node_spec()),
    {
        div_tensor_impl(self, rhs)
    }
}

impl<T: NumberLike> DivSpecImpl<&TensorPromise<T>> for &TensorPromise<T> {
    open spec fn obeys_div_spec() -> bool {
        false
    }

    open spec fn div_req(self, rhs: &TensorPromise<T>) -> bool {
        operands_agree(self.node_spec(), rhs.node_spec())
    }

    open spec fn div_spec(self, rhs: &TensorPromise<T>) -> TensorPromise<T> {
        arbitrary()
    }
}

impl<T: NumberLike> Div<TensorPromise<T>> for &TensorPromise<T> {
    type Output = TensorPromise<T>;

    /// The promise of `self / rhs`, element by element.
    #[inline]
    fn div(self, rhs: TensorPromise<T>) -> (p: TensorPromise<T>)
        ensures
            is_operation(p, BinaryKind::Div, self.node_spec(), rhs.node_spec()),
    {
        div_tensor_impl(self, &rhs)
    }
}

impl<T: NumberLike> DivSpecImpl<TensorPromise<T>> for &TensorPromise<T> {
    open spec fn obeys_div_spec() -> bool {
        false
    }

    open spec fn div_req(self, rhs: TensorPromise<T>) -> bool {
        operands_agree(self.node_spec(), rhs.node_spec())
    }

    open spec fn div_spec(self, rhs: TensorPromise<T>) -> TensorPromise<T> {
        arbitrary()
    }
}

impl<T: NumberLike> Div<&TensorPromise<T>> for TensorPromise<T> {
    type Output = TensorPromise<T>;

    /// The promise of `self / rhs`, element by element.
    #[inline]
    fn div(self, rhs: &TensorPromise<T>) -> (p: TensorPromise<T>)
        ensures
            is_operation(p, BinaryKind::Div, self.node_spec(), rhs.node_spec()),
    {
        div_tensor_impl(&self, rhs)
    }
}

impl<T: NumberLike> DivSpecImpl<&TensorPromise<T>> for TensorPromise<T> {
    open spec fn obeys_div_spec() -> bool {
        false
    }

    open spec fn div_req(self, rhs: &TensorPromise<T>) -> bool {
        operands_agree(self.node_spec(), rhs.node_spec())
    }

    open spec fn div_spec(self, rhs: &TensorPromise<T>) -> TensorPromise<T> {
        arbitrary()
    }
}

impl<T: NumberLike> Div<TensorPromise<T>> for TensorPromise<T> {
    type Output = TensorPromise<T>;

    /// The promise of `self / rhs`, element by element.
    #[inline]
    fn div(self, rhs: TensorPromise<T>) -> (p: TensorPromise<T>)
        ensures
            is_operation(p, BinaryKind::Div, self.node_spec(), rhs.node_spec()),
    {
        div_tensor_impl(&self, &rhs)
    }
}

impl<T: NumberLike> DivSpecImpl<TensorPromise<T>> for TensorPromise<T> {
    open spec fn obeys_div_spec() -> bool {
        false
    }

    open spec fn div_req(self, rhs: TensorPromise<T>) -> bool {
        operands_agree(self.node_spec(), rhs.node_spec())
    }

    open spec fn div_spec(self, rhs: TensorPromise<T>) -> TensorPromise<T> {
        arbitrary()
    }
}

impl<T: NumberLike> Add<&CachedTensorPromise<T>> for &TensorPromise<T> {
    type Output = TensorPromise<T>;

    /// The promise of `self + rhs`, element by element.
    #[inline]
    fn add(self, rhs: &CachedTensorPromise<T>) -> (p: TensorPromise<T>)
        ensures
            is_operation(p, BinaryKind::Add, self.node_spec(), rhs.node_spec()),
    {
        add_tensor_impl(self, rhs)
    }
}

impl<T: NumberLike> AddSpecImpl<&CachedTensorPromise<T>> for &TensorPromise<T> {
    open spec fn obeys_add_spec() -> bool {
        false
    }

    open spec fn add_req(self, rhs: &CachedTensorPromise<T>) -> bool {
        operands_agree(self.node_spec(), rhs.node_spec())
    }

    open spec fn add_spec(self, rhs: &CachedTensorPromise<T>) -> TensorPromise<T> {
        arbitrary()
    }
}

impl<T: NumberLike> Add<CachedTensorPromise<T>> for &TensorPromise<T> {
    type Output = TensorPromise<T>;

    /// The promise of `self + rhs`, element by element.
    #[inline]
    fn add(self, rhs: CachedTensorPromise<T>) -> (p: TensorPromise<T>)
        ensures
            is_operation(p, BinaryKind::Add, self.node_spec(), rhs.node_spec()),
    {
        add_tensor_impl(self, &rhs)
    }
}

impl<T: NumberLike> AddSpecImpl<CachedTensorPromise<T>> for &TensorPromise<T> {
    open spec fn obeys_add_spec() -> bool {
        false
    }

    open spec fn add_req(self, rhs: CachedTensorPromise<T>) -> bool {
        operands_agree(self.node_spec(), rhs.node_spec())
    }

    open spec fn add_spec(self, rhs: CachedTensorPromise<T>) -> TensorPromise<T> {
        arbitrary()
    }
}

impl<T: NumberLike> Add<&CachedTensorPromise<T>> for TensorPromise<T> {
    type Output = TensorPromise<T>;

    /// The promise of `self + rhs`, element by element.
    #[inline]
    fn add(self, rhs: &CachedTensorPromise<T>) -> (p: TensorPromise<T>)
        ensures
            is_operation(p, BinaryKind::Add, self.node_spec(), rhs.node_spec()),
    {
        add_tensor_impl(&self, rhs)
    }
}

impl<T: NumberLike> AddSpecImpl<&CachedTensorPromise<T>> for TensorPromise<T> {
    open spec fn obeys_add_spec() -> bool {
        false
    }

    open spec fn add_req(self, rhs: &CachedTensorPromise<T>) -> bool {
        operands_agree(self.node_spec(), rhs.node_spec())
    }

    open spec fn add_spec(self, rhs: &CachedTensorPromise<T>) -> TensorPromise<T> {
        arbitrary()
    }
}

impl<T: NumberLike> Add<CachedTensorPromise<T>> for TensorPromise<T> {
    type Output = TensorPromise<T>;

    /// The promise of `self + rhs`, element by element.
    #[inline]
    fn add(self, rhs: CachedTensorPromise<T>) -> (p: TensorPromise<T>)
        ensures
            is_operation(p, BinaryKind::Add, self.node_spec(), rhs.node_spec()),
    {
        add_tensor_impl(&self, &rhs)
    }
}

impl<T: NumberLike> AddSpecImpl<CachedTensorPromise<T>> for TensorPromise<T> {
    open spec fn obeys_add_spec() -> bool {
        false
    }

    open spec fn add_req(self, rhs: CachedTensorPromise<T>) -> bool {
        operands_agree(self.node_spec(), rhs.node_spec())
    }

    open spec fn add_spec(self, rhs: CachedTensorPromise<T>) -> TensorPromise<T> {
        arbitrary()
    }
}

impl<T: NumberLike> Sub<&CachedTensorPromise<T>> for &TensorPromise<T> {
    type Output = TensorPromise<T>;

    /// The promise of `self - rhs`, element by element.
    #[inline]
    fn sub(self, rhs: &CachedTensorPromise<T>) -> (p: TensorPromise<T>)
        ensures
            is_operation(p, BinaryKind::Sub, self.node_spec(), rhs.node_spec()),
    {
        sub_tensor_impl(self, rhs)
    }
}

impl<T: NumberLike> SubSpecImpl<&CachedTensorPromise<T>> for &TensorPromise<T> {
    open spec fn obeys_sub_spec() -> bool {
        false
    }

    open spec fn sub_req(self, rhs: &CachedTensorPromise<T>) -> bool {
        operands_agree(self.node_spec(), rhs.node_spec())
    }

    open spec fn sub_spec(self, rhs: &CachedTensorPromise<T>) -> TensorPromise<T> {
        arbitrary()
    }
}

impl<T: NumberLike> Sub<CachedTensorPromise<T>> for &TensorPromise<T> {
    type Output = TensorPromise<T>;

    /// The promise of `self - rhs`, element by element.
    #[inline]
    fn sub(self, rhs: CachedTensorPromise<T>) -> (p: TensorPromise<T>)
        ensures
            is_operation(p, BinaryKind::Sub, self.node_spec(), rhs.node_spec()),
    {
        sub_tensor_impl(self, &rhs)
    }
}

impl<T: NumberLike> SubSpecImpl<CachedTensorPromise<T>> for &TensorPromise<T> {
    open spec fn obeys_sub_spec() -> bool {
        false
    }

    open spec fn sub_req(self, rhs: CachedTensorPromise<T>) -> bool {
        operands_agree(self.node_spec(), rhs.node_spec())
    }

    open spec fn sub_spec(self, rhs: CachedTensorPromise<T>) -> TensorPromise<T> {
        arbitrary()
    }
}

impl<T: NumberLike> Sub<&CachedTensorPromise<T>> for TensorPromise<T> {
    type Output = TensorPromise<T>;

    /// The promise of `self - rhs`, element by element.
    #[inline]
    fn sub(self, rhs: &CachedTensorPromise<T>) -> (p: TensorPromise<T>)
        ensures
            is_operation(p, BinaryKind::Sub, self.node_spec(), rhs.node_spec()),
    {
        sub_tensor_impl(&self, rhs)
    }
}

impl<T: NumberLike> SubSpecImpl<&CachedTensorPromise<T>> for TensorPromise<T> {
    open spec fn obeys_sub_spec() -> bool {
        false
    }

    open spec fn sub_req(self, rhs: &CachedTensorPromise<T>) -> bool {
        operands_agree(self.node_spec(), rhs.node_spec())
    }

    open spec fn sub_spec(self, rhs: &CachedTensorPromise<T>) -> TensorPromise<T> {
        arbitrary()
    }
}

impl<T: NumberLike> Sub<CachedTensorPromise<T>> for TensorPromise<T> {
    type Output = TensorPromise<T>;

    /// The promise of `self - rhs`, element by element.
    #[inline]
    fn sub(self, rhs: CachedTensorPromise<T>) -> (p: TensorPromise<T>)
        ensures
            is_operation(p, BinaryKind::Sub, self.node_spec(), rhs.node_spec()),
    {
        sub_tensor_impl(&self, &rhs)
    }
}

impl<T: NumberLike> SubSpecImpl<CachedTensorPromise<T>> for TensorPromise<T> {
    open spec fn obeys_sub_spec() -> bool {
        false
    }

    open spec fn sub_req(self, rhs: CachedTensorPromise<T>) -> bool {
        operands_agree(self.node_spec(), rhs.node_spec())
    }

    open spec fn sub_spec(self, rhs: CachedTensorPromise<T>) -> TensorPromise<T> {
        arbitrary()
    }
}

impl<T: NumberLike> Mul<&CachedTensorPromise<T>> for &TensorPromise<T> {
    type Output = TensorPromise<T>;

    /// The promise of `self * rhs`, element by element.
    #[inline]
    fn mul(self, rhs: &CachedTensorPromise<T>) -> (p: TensorPromise<T>)
        ensures
            is_operation(p, BinaryKind::Mul, self.node_spec(), rhs.node_spec()),
    {
        mul_tensor_impl(self, rhs)
    }
}

impl<T: NumberLike> MulSpecImpl<&CachedTensorPromise<T>> for &TensorPromise<T> {
    open spec fn obeys_mul_spec() -> bool {
        false
    }

    open spec fn mul_req(self, rhs: &CachedTensorPromise<T>) -> bool {
        operands_agree(self.node_spec(), rhs.node_spec())
    }

    open spec fn mul_spec(self, rhs: &CachedTensorPromise<T>) -> TensorPromise<T> {
        arbitrary()
    }
}

impl<T: NumberLike> Mul<CachedTensorPromise<T>> for &TensorPromise<T> {
    type Output = TensorPromise<T>;

    /// The promise of `self * rhs`, element by element.
    #[inline]
    fn mul(self, rhs: CachedTensorPromise<T>) -> (p: TensorPromise<T>)
        ensures
            is_operation(p, BinaryKind::Mul, self.node_spec(), rhs.node_spec()),
    {
        mul_tensor_impl(self, &rhs)
    }
}

impl<T: NumberLike> MulSpecImpl<CachedTensorPromise<T>> for &TensorPromise<T> {
    open spec fn obeys_mul_spec() -> bool {
        false
    }

    open spec fn mul_req(self, rhs: CachedTensorPromise<T>) -> bool {
        operands_agree(self.node_spec(), rhs.node_spec())
    }

    open spec fn mul_spec(self, rhs: CachedTensorPromise<T>) -> TensorPromise<T> {
        arbitrary()
    }
}

impl<T: NumberLike> Mul<&CachedTensorPromise<T>> for TensorPromise<T> {
    type Output = TensorPromise<T>;

    /// The promise of `self * rhs`, element by element.
    #[inline]
    fn mul(self, rhs: &CachedTensorPromise<T>) -> (p: TensorPromise<T>)
        ensures
            is_operation(p, BinaryKind::Mul, self.node_spec(), rhs.node_spec()),
    {
        mul_tensor_impl(&self, rhs)
    }
}

impl<T: NumberLike> MulSpecImpl<&CachedTensorPromise<T>> for TensorPromise<T> {
    open spec fn obeys_mul_spec() -> bool {
        false
    }

    open spec fn mul_req(self, rhs: &CachedTensorPromise<T>) -> bool {
        operands_agree(self.node_spec(), rhs.node_spec())
    }

    open spec fn mul_spec(self, rhs: &CachedTensorPromise<T>) -> TensorPromise<T> {
        arbitrary()
    }
}

impl<T: NumberLike> Mul<CachedTensorPromise<T>> for TensorPromise<T> {
    type Output = TensorPromise<T>;

    /// The promise of `self * rhs`, element by element.
    #[inline]
    fn mul(self, rhs: CachedTensorPromise<T>) -> (p: TensorPromise<T>)
        ensures
            is_operation(p, BinaryKind::Mul, self.node_spec(), rhs.node_spec()),
    {
        mul_tensor_impl(&self, &rhs)
    }
}

impl<T: NumberLike> MulSpecImpl<CachedTensorPromise<T>> for TensorPromise<T> {
    open spec fn obeys_mul_spec() -> bool {
        false
    }

    open spec fn mul_req(self, rhs: CachedTensorPromise<T>) -> bool {
        operands_agree(self.node_spec(), rhs.node_spec())
    }

    open spec fn mul_spec(self, rhs: CachedTensorPromise<T>) -> TensorPromise<T> {
        arbitrary()
    }
}

impl<T: NumberLike> Div<&CachedTensorPromise<T>> for &TensorPromise<T> {
    type Output = TensorPromise<T>;

    /// The promise of `self / rhs`, element by element.
    #[inline]
    fn div(self, rhs: &CachedTensorPromise<T>) -> (p: TensorPromise<T>)
        ensures
            is_operation(p, BinaryKind::Div, self.node_spec(), rhs.node_spec()),
    {
        div_tensor_impl(self, rhs)
    }
}

impl<T: NumberLike> DivSpecImpl<&CachedTensorPromise<T>> for &TensorPromise<T> {
    open spec fn obeys_div_spec() -> bool {
        false
    }

    open spec fn div_req(self, rhs: &CachedTensorPromise<T>) -> bool {
        operands_agree(self.node_spec(), rhs.node_spec())
    }

    open spec fn div_spec(self, rhs: &CachedTensorPromise<T>) -> TensorPromise<T> {
        arbitrary()
    }
}

impl<T: NumberLike> Div<CachedTensorPromise<T>> for &TensorPromise<T> {
    type Output = TensorPromise<T>;

    /// The promise of `self / rhs`, element by element.
    #[inline]
    fn div(self, rhs: CachedTensorPromise<T>) -> (p: TensorPromise<T>)
        ensures
            is_operation(p, BinaryKind::Div, self.node_spec(), rhs.node_spec()),
    {
        div_tensor_impl(self, &rhs)
    }
}

impl<T: NumberLike> DivSpecImpl<CachedTensorPromise<T>> for &TensorPromise<T> {
    open spec fn obeys_div_spec() -> bool {
        false
    }

    open spec fn div_req(self, rhs: CachedTensorPromise<T>) -> bool {
        operands_agree(self.node_spec(), rhs.node_spec())
    }

    open spec fn div_spec(self, rhs: CachedTensorPromise<T>) -> TensorPromise<T> {
        arbitrary()
    }
}

impl<T: NumberLike> Div<&CachedTensorPromise<T>> for TensorPromise<T> {
    type Output = TensorPromise<T>;

    /// The promise of `self / rhs`, element by element.
    #[inline]
    fn div(self, rhs: &CachedTensorPromise<T>) -> (p: TensorPromise<T>)
        ensures
            is_operation(p, BinaryKind::Div, self.node_spec(), rhs.node_spec()),
    {
        div_tensor_impl(&self, rhs)
    }
}

impl<T: NumberLike> DivSpecImpl<&CachedTensorPromise<T>> for TensorPromise<T> {
    open spec fn obeys_div_spec() -> bool {
        false
    }

    open spec fn div_req(self, rhs: &CachedTensorPromise<T>) -> bool {
        operands_agree(self.node_spec(), rhs.node_spec())
    }

    open spec fn div_spec(self, rhs: &CachedTensorPromise<T>) -> TensorPromise<T> {
        arbitrary()
    }
}

impl<T: NumberLike> Div<CachedTensorPromise<T>> for TensorPromise<T> {
    type Output = TensorPromise<T>;

    /// The promise of `self / rhs`, element by element.
    #[inline]
    fn div(self, rhs: CachedTensorPromise<T>) -> (p: TensorPromise<T>)
        ensures
            is_operation(p, BinaryKind::Div, self.node_spec(), rhs.node_spec()),
    {
        div_tensor_impl(&self, &rhs)
    }
}

impl<T: NumberLike> DivSpecImpl<CachedTensorPromise<T>> for TensorPromise<T> {
    open spec fn obeys_div_spec() -> bool {
        false
    }

    open spec fn div_req(self, rhs: CachedTensorPromise<T>) -> bool {
        operands_agree(self.node_spec(), rhs.node_spec())
    }

    open spec fn div_spec(self, rhs: CachedTensorPromise<T>) -> TensorPromise<T> {
        arbitrary()
    }
}

} // verus!
