//! Vectorized, null-propagating expressions over type-erased columns.
//!
//! The entry points of this module lift statically-typed scalar functions
//! into columnar operations. [`vectorize::BinaryExpression`] wraps any
//! binary scalar function (anything implementing
//! [`vectorize::BinaryExpFunc`]) into a length-checked, null-propagating
//! operation over two type-erased columns; [`BinaryExpression`] in this
//! module does the same for a plain closure. The [`Expression`] trait
//! additionally erases over arity, so that many wrapped functions can be
//! invoked uniformly on a list of columns.

use vstd::prelude::*;

use crate::TypeMismatch;
use crate::array::{Array, ArrayBuilder, ArrayImpl};
use crate::scalar::Scalar;
use core::marker::PhantomData;

pub mod cmp;
pub mod string;
pub mod vectorize;

verus! {

/// Error surfaced by the arity-erasing expression interface: either one of
/// the inputs failed to narrow to the column type the expression expects,
/// or the number of inputs does not match the expression's arity. Both are
/// recoverable and propagated, never a panic.
#[derive(Clone, Copy, Debug, PartialEq, Eq, Structural)]
pub enum ExprError {
    /// A type-erased input had a different kind than the expression
    /// expects.
    TypeMismatch(TypeMismatch),
    /// The number of supplied columns does not match the expression's
    /// arity.
    ArityMismatch,
}

/// A binary expression over type-erased columns, produced by lifting a
/// plain closure or function from two borrowed items to an owned output
/// item. The scalar function has no awareness of nulls or type erasure;
/// the expression narrows both inputs, propagates nulls slot-wise and
/// rebuilds a type-erased column.
///
/// This is the closure flavour; [`vectorize::BinaryExpression`] wraps a
/// [`vectorize::BinaryExpFunc`] capability instead, whose mathematical
/// meaning is stated by a spec function, and therefore carries the more
/// precise contract. The contract here speaks through what the closure's
/// own postcondition admits.
pub struct BinaryExpression<I1: Array, I2: Array, O: Array, F> {
    func: F,
    _marker: PhantomData<(I1, I2, O)>,
}

impl<'a, I1: Array, I2: Array, O: Array, F> BinaryExpression<I1, I2, O, F> where
    F: Fn(I1::RefItem<'a>, I2::RefItem<'a>) -> O::OwnedItem,
    O::Builder: ArrayBuilder<Array = O>,
 {
    /// The wrapped scalar function.
    pub closed spec fn func(&self) -> F {
        self.func
    }

    /// What holds of one output slot: null exactly when at least one
    /// input slot is null, and otherwise a value the scalar function can
    /// return on the two present values.
    pub open spec fn slot_ok(
        &self,
        w1: Option<<I1::OwnedItem as DeepView>::V>,
        w2: Option<<I2::OwnedItem as DeepView>::V>,
        wo: Option<<O::OwnedItem as DeepView>::V>,
    ) -> bool {
        match (w1, w2) {
            (Some(x), Some(y)) => exists|r1: I1::RefItem<'a>, r2: I2::RefItem<'a>, o: O::OwnedItem|
                {
                    &&& r1.deep_view() == x
                    &&& r2.deep_view() == y
                    &&& wo == Some(o.deep_view())
                    &&& #[trigger] call_ensures(self.func(), (r1, r2), o)
                },
            _ => wo is None,
        }
    }

    /// Create a binary expression from an existing function.
    pub fn new(func: F) -> (r: Self)
        ensures
            r.func() == func,
    {
        BinaryExpression { func, _marker: PhantomData }
    }

    /// Evaluate the expression on two type-erased columns of equal
    /// length.
    ///
    /// Both inputs are narrowed to the concrete column types the scalar
    /// function expects; the first mismatch aborts the whole operation
    /// with the offending kinds and no partial result. On success the
    /// result is a column of the output kind and the input length whose
    /// slots satisfy [`Self::slot_ok`] against the input slots.
    ///
    /// Unequal input lengths are a fail-fast contract violation, not a
    /// recoverable error; callers must check lengths first.
    pub fn eval(&self, i1: &'a ArrayImpl, i2: &'a ArrayImpl) -> (r: Result<ArrayImpl, TypeMismatch>)
        requires
            i1.spec_len() == i2.spec_len(),
            forall|r1: I1::RefItem<'a>, r2: I2::RefItem<'a>|
                #[trigger] call_requires(self.func(), (r1, r2)),
        ensures
            r is Ok <==> (i1.kind() == I1::kind() && i2.kind() == I2::kind()),
            match r {
                Ok(out) => {
                    &&& out.kind() == O::kind()
                    &&& out.spec_len() == i1.spec_len()
                    &&& exists|a1: I1, a2: I2, oa: O|
                        {
                            &&& *i1 == #[trigger] a1.spec_wrap()
                            &&& *i2 == #[trigger] a2.spec_wrap()
                            &&& out == #[trigger] oa.spec_wrap()
                            &&& oa.contents().len() == a1.contents().len()
                            &&& a2.contents().len() == a1.contents().len()
                            &&& forall|k: int|
                                0 <= k < oa.contents().len() ==> self.slot_ok(
                                    a1.contents()[k],
                                    a2.contents()[k],
                                    #[trigger] oa.contents()[k],
                                )
                        }
                },
                Err(e) => e == if i1.kind() != I1::kind() {
                    TypeMismatch(I1::kind(), i1.kind())
                } else {
                    TypeMismatch(I2::kind(), i2.kind())
                },
            },
    {
        let i1a: &I1 = match I1::try_narrow(i1) {
            Ok(a) => a,
            Err(e) => {
                return Err(e);
            }
        };
        let i2a: &I2 = match I2::try_narrow(i2) {
            Ok(a) => a,
            Err(e) => {
                return Err(e);
            }
        };
        proof {
            i1a.lemma_wrap();
            i2a.lemma_wrap();
        }
        let n = i1a.len();
        let mut builder: O::Builder = ArrayBuilder::with_capacity(n);
        let mut idx: usize = 0;
        while idx < n
            invariant
                n == i1a.contents().len(),
                n == i2a.contents().len(),
                idx <= n,
                builder.inv(),
                builder.contents().len() == idx,
                forall|r1: I1::RefItem<'a>, r2: I2::RefItem<'a>|
                    #[trigger] call_requires(self.func(), (r1, r2)),
                forall|k: int|
                    0 <= k < idx ==> self.slot_ok(
                        i1a.contents()[k],
                        i2a.contents()[k],
                        #[trigger] builder.contents()[k],
                    ),
            decreases n - idx,
        {
            let v1 = i1a.get(idx);
            let v2 = i2a.get(idx);
            match (v1, v2) {
                (Some(r1), Some(r2)) => {
                    proof {
                        assert(call_requires(self.func(), (r1, r2)));
                    }
                    let out = (self.func)(r1, r2);
                    let oref = out.as_scalar_ref();
                    builder.push(Some(oref));
                    proof {
                        assert(call_ensures(self.func(), (r1, r2), out));
                        assert(builder.contents()[idx as int] == Some(out.deep_view()));
                        assert(self.slot_ok(
                            i1a.contents()[idx as int],
                            i2a.contents()[idx as int],
                            builder.contents()[idx as int],
                        ));
                    }
                }
                _ => {
                    builder.push(None);
                    proof {
                        assert(builder.contents()[idx as int] is None);
                    }
                }
            }
            idx = idx + 1;
        }
        let ghost built = builder.contents();
        let out_arr: O = builder.finish();
        proof {
            out_arr.lemma_wrap();
        }
        let out = out_arr.erase();
        proof {
            let a1 = *i1a;
            let a2 = *i2a;
            assert(*i1 == a1.spec_wrap());
            assert(*i2 == a2.spec_wrap());
            assert(out == out_arr.spec_wrap());
            assert forall|k: int| 0 <= k < out_arr.contents().len() implies self.slot_ok(
                a1.contents()[k],
                a2.contents()[k],
                #[trigger] out_arr.contents()[k],
            ) by {
                assert(out_arr.contents()[k] == built[k]);
            }
        }
        Ok(out)
    }
}

/// A capability interface over whole expressions, erasing their arity: it
/// accepts a list of type-erased columns and validates the column count
/// before delegating to the typed evaluation step.
///
/// The contract is split into spec hooks so that every implementation
/// pins down exactly when it succeeds, what it returns and which error it
/// reports.
pub trait Expression {
    /// The inputs on which evaluation is defined. Implementations use
    /// this for the fail-fast length precondition: inputs of matching
    /// arity must hold columns of equal length.
    spec fn pre(&self, data: Seq<ArrayImpl>) -> bool;

    /// Exactly when evaluation returns a column.
    spec fn succeeds(&self, data: Seq<ArrayImpl>) -> bool;

    /// What a successful evaluation returns.
    spec fn ok_value(&self, data: Seq<ArrayImpl>, out: ArrayImpl) -> bool;

    /// Which error a failed evaluation reports.
    spec fn err_value(&self, data: Seq<ArrayImpl>, e: ExprError) -> bool;

    /// Evaluate this expression on a list of type-erased columns.
    fn eval_expr(&self, data: &[&ArrayImpl]) -> (r: Result<ArrayImpl, ExprError>)
        requires
            self.pre(data@.map_values(|a: &ArrayImpl| *a)),
        ensures
            ({
                let d = data@.map_values(|a: &ArrayImpl| *a);
                &&& (r is Ok <==> self.succeeds(d))
                &&& match r {
                    Ok(out) => self.ok_value(d, out),
                    Err(e) => self.err_value(d, e),
                }
            }),
    ;
}

} // verus!
