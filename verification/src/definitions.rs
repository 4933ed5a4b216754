//! The element type of a tensor.
use vstd::prelude::*;

verus! {
/// The number of elements that a chunked traversal packs into one run.
pub const PACKING_BUFFER_SIZE: usize = 128;

/// A number that tensors can hold: a copyable value with the four arithmetic
/// operations and negation. Each operation is total and is a function of its
/// operands alone, named by the spec function beside it.
pub trait NumberLike: Copy {
    spec fn plus_spec(self, rhs: Self) -> Self;

    spec fn minus_spec(self, rhs: Self) -> Self;

    spec fn times_spec(self, rhs: Self) -> Self;

    spec fn over_spec(self, rhs: Self) -> Self;

    spec fn negated_spec(self) -> Self;

    /// `self + rhs`
    fn plus(self, rhs: Self) -> (r: Self)
        ensures
            r == self.plus_spec(rhs),
    ;

    /// `self - rhs`
    fn minus(self, rhs: Self) -> (r: Self)
        ensures
            r == self.minus_spec(rhs),
    ;

    /// `self * rhs`
    fn times(self, rhs: Self) -> (r: Self)
        ensures
            r == self.times_spec(rhs),
    ;

    /// `self / rhs`
    fn over(self, rhs: Self) -> (r: Self)
        ensures
            r == self.over_spec(rhs),
    ;

    /// `-self`
    fn negated(self) -> (r: Self)
        ensures
            r == self.negated_spec(),
    ;
}

/// Two's-complement integers: every operation wraps, a quotient truncates
/// towards zero, and a division by zero gives zero.
impl NumberLike for i64 {
    open spec fn plus_spec(self, rhs: Self) -> Self {
        self.wrapping_add(rhs)
    }

    open spec fn minus_spec(self, rhs: Self) -> Self {
        self.wrapping_sub(rhs)
    }

    open spec fn times_spec(self, rhs: Self) -> Self {
        self.wrapping_mul(rhs)
    }

    open spec fn over_spec(self, rhs: Self) -> Self {
        if rhs == 0 {
            0
        } else if self == i64::MIN && rhs == -1 {
            i64::MIN
        } else if (self >= 0) == (rhs > 0) {
            (abs_int(self as int) / abs_int(rhs as int)) as i64
        } else {
            (-(abs_int(self as int) / abs_int(rhs as int))) as i64
        }
    }

    open spec fn negated_spec(self) -> Self {
        0i64.wrapping_sub(self)
    }

    fn plus(self, rhs: Self) -> (r: Self) {
        self.wrapping_add(rhs)
    }

    fn minus(self, rhs: Self) -> (r: Self) {
        self.wrapping_sub(rhs)
    }

    fn times(self, rhs: Self) -> (r: Self) {
        self.wrapping_mul(rhs)
    }

    fn over(self, rhs: Self) -> (r: Self) {
        if rhs == 0 {
            0
        } else if self == i64::MIN && rhs == -1 {
            i64::MIN
        } else {
            let quotient: u64 = magnitude(self) / magnitude(rhs);
            if (self >= 0) == (rhs > 0) {
                quotient as i64
            } else if quotient == 0x8000_0000_0000_0000u64 {
                i64::MIN
            } else {
                -(quotient as i64)
            }
        }
    }

    fn negated(self) -> (r: Self) {
        0i64.wrapping_sub(self)
    }
}

/// The absolute value of `x` as an unsigned number.
fn magnitude(x: i64) -> (m: u64)
    ensures
        m == abs_int(x as int),
{
    if x >= 0 {
        x as u64
    } else if x == i64::MIN {
        0x8000_0000_0000_0000u64
    } else {
        (-x) as u64
    }
}

/// The absolute value of an integer.
pub open spec fn abs_int(x: int) -> int {
    if x < 0 {
        -x
    } else {
        x
    }
}

} // verus!
