//! Lifting a binary scalar function to a columnar operation.
//!
//! A [`BinaryExpFunc`] is a statically-typed binary scalar function: it
//! takes two borrowed references of fixed input types and produces one
//! owned output value, with no awareness of nulls or type erasure.
//! [`BinaryExpression`] lifts any such function into a vectorized
//! operation over two type-erased columns: it narrows both inputs to the
//! concrete column types the function expects, zips their per-slot
//! optional values with unconditional null propagation, and builds a
//! type-erased result column.

use vstd::prelude::*;

use crate::TypeMismatch;
use crate::array::{Array, ArrayBuilder, ArrayImpl};
use crate::expr::{ExprError, Expression};
use crate::scalar::Scalar;
use core::marker::PhantomData;

verus! {

/// The slot-wise lift of a binary function over two nullable columns:
/// the result is null at a slot exactly when at least one input is null
/// there, and otherwise holds the function of the two present values.
/// This null-propagation rule is unconditional and total.
pub open spec fn zip_null_prop<V1, V2, VO>(
    s1: Seq<Option<V1>>,
    s2: Seq<Option<V2>>,
    f: spec_fn(V1, V2) -> VO,
) -> Seq<Option<VO>> {
    Seq::new(
        s1.len(),
        |i: int|
            match (s1[i], s2[i]) {
                (Some(v1), Some(v2)) => Some(f(v1, v2)),
                _ => None,
            },
    )
}

/// A binary scalar function from items of `I1` and `I2` to an owned item
/// of `O`. The mathematical meaning of the function is its
/// [`BinaryExpFunc::spec_eval`]; the executable `eval` must agree with it.
pub trait BinaryExpFunc<I1: Array, I2: Array, O: Array> {
    /// The mathematical function this scalar function computes.
    spec fn spec_eval(
        &self,
        i1: <I1::OwnedItem as DeepView>::V,
        i2: <I2::OwnedItem as DeepView>::V,
    ) -> <O::OwnedItem as DeepView>::V;

    /// Apply the function to two present values.
    fn eval<'a>(&self, i1: I1::RefItem<'a>, i2: I2::RefItem<'a>) -> (r: O::OwnedItem)
        ensures
            r.deep_view() == self.spec_eval(i1.deep_view(), i2.deep_view()),
    ;
}

/// A binary expression over type-erased columns, produced by lifting the
/// scalar function `F`: callers pass two [`ArrayImpl`] values and receive
/// a type-erased result column, while `F` itself only ever sees two
/// statically-typed present values.
pub struct BinaryExpression<I1: Array, I2: Array, O: Array, F> {
    expr: F,
    _marker: PhantomData<(I1, I2, O)>,
}

impl<I1: Array, I2: Array, O: Array, F> BinaryExpression<I1, I2, O, F> where
    F: BinaryExpFunc<I1, I2, O>,
    O::Builder: ArrayBuilder<Array = O>,
 {
    /// The wrapped scalar function.
    pub closed spec fn func(&self) -> F {
        self.expr
    }

    /// The mathematical slot function this expression applies: the
    /// wrapped scalar function's meaning on two present values.
    pub open spec fn slot_fn(&self) -> spec_fn(
        <I1::OwnedItem as DeepView>::V,
        <I2::OwnedItem as DeepView>::V,
    ) -> <O::OwnedItem as DeepView>::V {
        |v1, v2| self.func().spec_eval(v1, v2)
    }

    /// What a successful evaluation on `i1` and `i2` returns: the output
    /// wraps a column of the output type whose contents are the
    /// null-propagating zip of the two input contents under the scalar
    /// function.
    pub open spec fn batch_result(&self, i1: ArrayImpl, i2: ArrayImpl, out: ArrayImpl) -> bool {
        exists|a1: I1, a2: I2, oa: O|
            {
                &&& i1 == #[trigger] a1.spec_wrap()
                &&& i2 == #[trigger] a2.spec_wrap()
                &&& out == #[trigger] oa.spec_wrap()
                &&& oa.contents() == zip_null_prop(a1.contents(), a2.contents(), self.slot_fn())
            }
    }

    /// Create a binary expression from an existing scalar function.
    pub fn new(expr: F) -> (r: Self)
        ensures
            r.func() == expr,
    {
        BinaryExpression { expr, _marker: PhantomData }
    }

    /// Evaluate the expression on two type-erased columns of equal
    /// length.
    ///
    /// Both inputs are narrowed to the concrete column types the scalar
    /// function expects; the first mismatch aborts the whole operation
    /// with the offending kinds and no partial result. On success the
    /// result is a column of the output kind and the input length, null
    /// at a slot exactly when at least one input is null there, and
    /// otherwise holding the scalar function of the two present values.
    ///
    /// Unequal input lengths are a fail-fast contract violation, not a
    /// recoverable error; callers must check lengths first.
    pub fn eval_batch(&self, i1: &ArrayImpl, i2: &ArrayImpl) -> (r: Result<ArrayImpl, TypeMismatch>)
        requires
            i1.spec_len() == i2.spec_len(),
        ensures
            r is Ok <==> (i1.kind() == I1::kind() && i2.kind() == I2::kind()),
            match r {
                Ok(out) => {
                    &&& self.batch_result(*i1, *i2, out)
                    &&& out.kind() == O::kind()
                    &&& out.spec_len() == i1.spec_len()
                },
                Err(e) => e == if i1.kind() != I1::kind() {
                    TypeMismatch(I1::kind(), i1.kind())
                } else {
                    TypeMismatch(I2::kind(), i2.kind())
                },
            },
    {
        let i1a: &I1 = match I1::try_narrow(i1) {
            Ok(a) => a,
            Err(e) => {
                return Err(e);
            }
        };
        let i2a: &I2 = match I2::try_narrow(i2) {
            Ok(a) => a,
            Err(e) => {
                return Err(e);
            }
        };
        proof {
            i1a.lemma_wrap();
            i2a.lemma_wrap();
        }
        let ghost z = zip_null_prop(i1a.contents(), i2a.contents(), self.slot_fn());
        let n = i1a.len();
        let mut builder: O::Builder = ArrayBuilder::with_capacity(n);
        let mut idx: usize = 0;
        proof {
            assert(builder.contents() =~= z.take(0));
        }
        while idx < n
            invariant
                n == i1a.contents().len(),
                n == i2a.contents().len(),
                idx <= n,
                builder.inv(),
                builder.contents() == z.take(idx as int),
                z == zip_null_prop(i1a.contents(), i2a.contents(), self.slot_fn()),
            decreases n - idx,
        {
            let v1 = i1a.get(idx);
            let v2 = i2a.get(idx);
            match (v1, v2) {
                (Some(r1), Some(r2)) => {
                    let out = self.expr.eval(r1, r2);
                    builder.push(Some(out.as_scalar_ref()));
                }
                _ => {
                    builder.push(None);
                }
            }
            proof {
                assert(builder.contents() =~= z.take(idx as int + 1));
            }
            idx = idx + 1;
        }
        proof {
            assert(z.take(n as int) =~= z);
        }
        let out_arr: O = builder.finish();
        proof {
            out_arr.lemma_wrap();
        }
        let out = out_arr.erase();
        proof {
            let a1 = *i1a;
            let a2 = *i2a;
            assert(*i1 == a1.spec_wrap());
            assert(*i2 == a2.spec_wrap());
            assert(out == out_arr.spec_wrap());
        }
        Ok(out)
    }
}

/// The determinism law for batch evaluation: two successful evaluations
/// of one expression on the same pair of columns yield result columns
/// with equal contents, because [`BinaryExpression::eval_batch`] pins the
/// output to the null-propagating zip of the inputs. Evaluating a pair of
/// finished columns is therefore repeatable.
pub proof fn lemma_eval_batch_deterministic<I1: Array, I2: Array, O: Array, F>(
    e: &BinaryExpression<I1, I2, O, F>,
    i1: ArrayImpl,
    i2: ArrayImpl,
    o1: ArrayImpl,
    o2: ArrayImpl,
) where F: BinaryExpFunc<I1, I2, O>, O::Builder: ArrayBuilder<Array = O>
    requires
        e.batch_result(i1, i2, o1),
        e.batch_result(i1, i2, o2),
    ensures
        exists|c1: O, c2: O|
            {
                &&& o1 == #[trigger] c1.spec_wrap()
                &&& o2 == #[trigger] c2.spec_wrap()
                &&& c1.contents() == c2.contents()
            },
{
    let (a1, a2, oa): (I1, I2, O) = choose|a1: I1, a2: I2, oa: O|
        {
            &&& i1 == #[trigger] a1.spec_wrap()
            &&& i2 == #[trigger] a2.spec_wrap()
            &&& o1 == #[trigger] oa.spec_wrap()
            &&& oa.contents() == zip_null_prop(a1.contents(), a2.contents(), e.slot_fn())
        };
    let (b1, b2, ob): (I1, I2, O) = choose|b1: I1, b2: I2, ob: O|
        {
            &&& i1 == #[trigger] b1.spec_wrap()
            &&& i2 == #[trigger] b2.spec_wrap()
            &&& o2 == #[trigger] ob.spec_wrap()
            &&& ob.contents() == zip_null_prop(b1.contents(), b2.contents(), e.slot_fn())
        };
    a1.lemma_wrap_injective(b1);
    a2.lemma_wrap_injective(b2);
    assert(oa.contents() == ob.contents());
}

impl<I1: Array, I2: Array, O: Array, F> Expression for BinaryExpression<I1, I2, O, F> where
    F: BinaryExpFunc<I1, I2, O>,
    O::Builder: ArrayBuilder<Array = O>,
 {
    open spec fn pre(&self, data: Seq<ArrayImpl>) -> bool {
        data.len() == 2 ==> data[0].spec_len() == data[1].spec_len()
    }

    open spec fn succeeds(&self, data: Seq<ArrayImpl>) -> bool {
        &&& data.len() == 2
        &&& data[0].kind() == I1::kind()
        &&& data[1].kind() == I2::kind()
    }

    open spec fn ok_value(&self, data: Seq<ArrayImpl>, out: ArrayImpl) -> bool {
        &&& self.batch_result(data[0], data[1], out)
        &&& out.kind() == O::kind()
        &&& out.spec_len() == data[0].spec_len()
    }

    open spec fn err_value(&self, data: Seq<ArrayImpl>, e: ExprError) -> bool {
        if data.len() != 2 {
            e == ExprError::ArityMismatch
        } else if data[0].kind() != I1::kind() {
            e == ExprError::TypeMismatch(TypeMismatch(I1::kind(), data[0].kind()))
        } else {
            e == ExprError::TypeMismatch(TypeMismatch(I2::kind(), data[1].kind()))
        }
    }

    fn eval_expr(&self, data: &[&ArrayImpl]) -> (r: Result<ArrayImpl, ExprError>) {
        if data.len() != 2 {
            return Err(ExprError::ArityMismatch);
        }
        let d0: &ArrayImpl = data[0];
        let d1: &ArrayImpl = data[1];
        match self.eval_batch(d0, d1) {
            Ok(out) => Ok(out),
            Err(e) => Err(ExprError::TypeMismatch(e)),
        }
    }
}

} // verus!
