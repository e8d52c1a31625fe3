//! Comparison functions over columns.
//!
//! Each comparison is a statically-typed binary scalar function wrapped
//! by [`crate::expr::vectorize::BinaryExpression`]. A comparison takes
//! two input column types `I1` and `I2` and a cast type `C`: both inputs
//! are widened into `C` before comparing, which is how columns of
//! different integer widths are compared. Every implementation fixes one
//! triple of concrete physical types, so the mathematical meaning of each
//! comparison is stated exactly.

use vstd::prelude::*;

use crate::array::{BoolArray, I32Array, I64Array};
use crate::expr::vectorize::BinaryExpFunc;
use core::marker::PhantomData;

verus! {

/// Return whether `i1 < i2`. The inputs may have different physical types; both are cast
/// into the `C` type before comparing.
///
/// * `I1`: left input column type.
/// * `I2`: right input column type.
/// * `C`: cast column type.
pub struct ExprCmpLe<I1, I2, C>(pub PhantomData<(I1, I2, C)>);

impl<I1, I2, C> ExprCmpLe<I1, I2, C> {
    /// Create the comparison function.
    pub fn new() -> Self {
        ExprCmpLe(PhantomData)
    }
}

/// Return whether `i1 >= i2`. The inputs may have different physical types; both are cast
/// into the `C` type before comparing.
///
/// * `I1`: left input column type.
/// * `I2`: right input column type.
/// * `C`: cast column type.
pub struct ExprCmpGe<I1, I2, C>(pub PhantomData<(I1, I2, C)>);

impl<I1, I2, C> ExprCmpGe<I1, I2, C> {
    /// Create the comparison function.
    pub fn new() -> Self {
        ExprCmpGe(PhantomData)
    }
}

/// Return whether `i1 == i2`. The inputs may have different physical types; both are cast
/// into the `C` type before comparing.
///
/// * `I1`: left input column type.
/// * `I2`: right input column type.
/// * `C`: cast column type.
pub struct ExprCmpEq<I1, I2, C>(pub PhantomData<(I1, I2, C)>);

impl<I1, I2, C> ExprCmpEq<I1, I2, C> {
    /// Create the comparison function.
    pub fn new() -> Self {
        ExprCmpEq(PhantomData)
    }
}

/// Return whether `i1 != i2`. The inputs may have different physical types; both are cast
/// into the `C` type before comparing.
///
/// * `I1`: left input column type.
/// * `I2`: right input column type.
/// * `C`: cast column type.
pub struct ExprCmpNe<I1, I2, C>(pub PhantomData<(I1, I2, C)>);

impl<I1, I2, C> ExprCmpNe<I1, I2, C> {
    /// Create the comparison function.
    pub fn new() -> Self {
        ExprCmpNe(PhantomData)
    }
}

impl BinaryExpFunc<I32Array, I32Array, BoolArray> for ExprCmpLe<I32Array, I32Array, I32Array> {
    open spec fn spec_eval(&self, i1: i32, i2: i32) -> bool {
        i1 < i2
    }

    fn eval<'a>(&self, i1: i32, i2: i32) -> (r: bool) {
        i1 < i2
    }
}

impl BinaryExpFunc<I64Array, I64Array, BoolArray> for ExprCmpLe<I64Array, I64Array, I64Array> {
    open spec fn spec_eval(&self, i1: i64, i2: i64) -> bool {
        i1 < i2
    }

    fn eval<'a>(&self, i1: i64, i2: i64) -> (r: bool) {
        i1 < i2
    }
}

impl BinaryExpFunc<I32Array, I64Array, BoolArray> for ExprCmpLe<I32Array, I64Array, I64Array> {
    open spec fn spec_eval(&self, i1: i32, i2: i64) -> bool {
        (i1 as i64) < i2
    }

    fn eval<'a>(&self, i1: i32, i2: i64) -> (r: bool) {
        (i1 as i64) < i2
    }
}

impl BinaryExpFunc<I32Array, I32Array, BoolArray> for ExprCmpGe<I32Array, I32Array, I32Array> {
    open spec fn spec_eval(&self, i1: i32, i2: i32) -> bool {
        i1 >= i2
    }

    fn eval<'a>(&self, i1: i32, i2: i32) -> (r: bool) {
        i1 >= i2
    }
}

impl BinaryExpFunc<I64Array, I64Array, BoolArray> for ExprCmpGe<I64Array, I64Array, I64Array> {
    open spec fn spec_eval(&self, i1: i64, i2: i64) -> bool {
        i1 >= i2
    }

    fn eval<'a>(&self, i1: i64, i2: i64) -> (r: bool) {
        i1 >= i2
    }
}

impl BinaryExpFunc<I32Array, I64Array, BoolArray> for ExprCmpGe<I32Array, I64Array, I64Array> {
    open spec fn spec_eval(&self, i1: i32, i2: i64) -> bool {
        (i1 as i64) >= i2
    }

    fn eval<'a>(&self, i1: i32, i2: i64) -> (r: bool) {
        (i1 as i64) >= i2
    }
}

impl BinaryExpFunc<I32Array, I32Array, BoolArray> for ExprCmpEq<I32Array, I32Array, I32Array> {
    open spec fn spec_eval(&self, i1: i32, i2: i32) -> bool {
        i1 == i2
    }

    fn eval<'a>(&self, i1: i32, i2: i32) -> (r: bool) {
        i1 == i2
    }
}

impl BinaryExpFunc<I64Array, I64Array, BoolArray> for ExprCmpEq<I64Array, I64Array, I64Array> {
    open spec fn spec_eval(&self, i1: i64, i2: i64) -> bool {
        i1 == i2
    }

    fn eval<'a>(&self, i1: i64, i2: i64) -> (r: bool) {
        i1 == i2
    }
}

impl BinaryExpFunc<I32Array, I64Array, BoolArray> for ExprCmpEq<I32Array, I64Array, I64Array> {
    open spec fn spec_eval(&self, i1: i32, i2: i64) -> bool {
        (i1 as i64) == i2
    }

    fn eval<'a>(&self, i1: i32, i2: i64) -> (r: bool) {
        (i1 as i64) == i2
    }
}

impl BinaryExpFunc<I32Array, I32Array, BoolArray> for ExprCmpNe<I32Array, I32Array, I32Array> {
    open spec fn spec_eval(&self, i1: i32, i2: i32) -> bool {
        i1 != i2
    }

    fn eval<'a>(&self, i1: i32, i2: i32) -> (r: bool) {
        i1 != i2
    }
}

impl BinaryExpFunc<I64Array, I64Array, BoolArray> for ExprCmpNe<I64Array, I64Array, I64Array> {
    open spec fn spec_eval(&self, i1: i64, i2: i64) -> bool {
        i1 != i2
    }

    fn eval<'a>(&self, i1: i64, i2: i64) -> (r: bool) {
        i1 != i2
    }
}

impl BinaryExpFunc<I32Array, I64Array, BoolArray> for ExprCmpNe<I32Array, I64Array, I64Array> {
    open spec fn spec_eval(&self, i1: i32, i2: i64) -> bool {
        (i1 as i64) != i2
    }

    fn eval<'a>(&self, i1: i32, i2: i64) -> (r: bool) {
        (i1 as i64) != i2
    }
}

} // verus!
