//! Columns and their builders.
//!
//! This module contains two reciprocal traits, [`Array`] and
//! [`ArrayBuilder`]. An `Array` is an immutable, fixed-length, nullable
//! sequence of values of one physical type; an `ArrayBuilder` is its
//! mutable, append-only, one-shot constructor. The two traits name each
//! other through associated types, so each column type has exactly one
//! builder type, and each builder builds exactly one column type.
//!
//! The module also contains the type-erased wrappers [`ArrayImpl`] and
//! [`ArrayBuilderImpl`]: closed tagged unions over every supported physical
//! variant, used to pass heterogeneous columns through uniform code paths.

use vstd::prelude::*;

use crate::TypeMismatch;
use crate::scalar::{Scalar, ScalarRef};

pub mod iterator;
pub mod primitive_array;
pub mod string_array;

pub use iterator::ArrayIterator;
pub use primitive_array::{
    BoolArray, BoolArrayBuilder, I16Array, I16ArrayBuilder, I32Array, I32ArrayBuilder, I64Array,
    I64ArrayBuilder,
};
pub use string_array::{StringArray, StringArrayBuilder};

verus! {

/// The tag of a physical column variant.
///
/// Every logical type maps to exactly one of these kinds. Narrowing a
/// type-erased wrapper reports the expected and the actual kind on failure.
#[derive(Clone, Copy, Debug, PartialEq, Eq, Structural)]
pub enum ArrayKind {
    Int16,
    Int32,
    Int64,
    Float32,
    Float64,
    Bool,
    String,
    Decimal,
}

/// An immutable, nullable column of values of one physical type.
///
/// The mathematical content of a column is a sequence of optional values,
/// [`Array::contents`]: slot `i` holds `Some(v)` for a present value and
/// `None` for a null. The length is fixed after construction; a column is
/// created only by its builder's `finish` and never mutated afterward.
pub trait Array: Sized + Send + Sync + 'static where
    for<'a> Self::OwnedItem: Scalar<RefType<'a> = Self::RefItem<'a>>,
 {
    /// The corresponding [`ArrayBuilder`] of this [`Array`]. The
    /// reciprocal constraint, that this builder builds exactly this
    /// column type, is stated on the builder side as
    /// `ArrayBuilder<Array = Self>`.
    type Builder;

    /// The owned item of the array.
    type OwnedItem: Scalar;

    /// The borrowed item retrieved from the array, with a lifetime no
    /// longer than the column's own. Its owned counterpart is exactly
    /// this array's owned item.
    type RefItem<'a>: ScalarRef<'a, ScalarType = Self::OwnedItem>
        + DeepView<V = <Self::OwnedItem as DeepView>::V>;

    /// The sequence of optional values this column holds.
    spec fn contents(&self) -> Seq<Option<<Self::OwnedItem as DeepView>::V>>;

    /// What wrapping this column into the type-erased union yields.
    spec fn spec_wrap(self) -> ArrayImpl;

    /// The tag of this physical variant.
    spec fn kind() -> ArrayKind;

    /// Wrapping is tagged with this variant's kind and keeps the contents.
    proof fn lemma_wrap(self)
        ensures
            self.spec_wrap().kind() == Self::kind(),
            self.spec_wrap().spec_len() == self.contents().len(),
    ;

    /// Two distinct columns never wrap to the same type-erased value.
    proof fn lemma_wrap_injective(self, other: Self)
        requires
            self.spec_wrap() == other.spec_wrap(),
        ensures
            self == other,
    ;

    /// Retrieve a reference to the value at slot `idx`, or `None` for a
    /// null slot. Out-of-range access is a contract violation.
    fn get<'a>(&'a self, idx: usize) -> (r: Option<Self::RefItem<'a>>)
        requires
            idx < self.contents().len(),
        ensures
            r.deep_view() == self.contents()[idx as int],
    ;

    /// Number of slots of the array.
    fn len(&self) -> (n: usize)
        ensures
            n == self.contents().len(),
    ;

    /// Whether this array has no slots.
    fn is_empty(&self) -> (r: bool)
        ensures
            r == (self.contents().len() == 0),
    {
        self.len() == 0
    }

    /// Wrap this column into the type-erased union. Total: always succeeds.
    fn erase(self) -> (r: ArrayImpl)
        ensures
            r == self.spec_wrap(),
    ;

    /// Narrow a type-erased column to this concrete variant. Succeeds
    /// exactly when the tag matches; a mismatch reports the expected and
    /// the actual kind.
    fn try_narrow<'a>(a: &'a ArrayImpl) -> (r: Result<&'a Self, TypeMismatch>)
        ensures
            r is Ok <==> a.kind() == Self::kind(),
            match r {
                Ok(c) => (*c).spec_wrap() == *a,
                Err(e) => e == TypeMismatch(Self::kind(), a.kind()),
            },
    ;

    /// Narrow a type-erased column to this concrete variant, taking
    /// ownership. Succeeds exactly when the tag matches; a mismatch
    /// reports the expected and the actual kind.
    fn try_unwrap(a: ArrayImpl) -> (r: Result<Self, TypeMismatch>)
        ensures
            r is Ok <==> a.kind() == Self::kind(),
            match r {
                Ok(c) => c.spec_wrap() == a,
                Err(e) => e == TypeMismatch(Self::kind(), a.kind()),
            },
    ;
}

/// A mutable column under construction.
///
/// A builder is a linear, one-shot state holder: it is created by
/// [`ArrayBuilder::with_capacity`], grows by exactly one slot per
/// [`ArrayBuilder::push`], and is consumed by [`ArrayBuilder::finish`],
/// which yields the immutable column with the pushed slots in push order.
pub trait ArrayBuilder: Sized {
    /// The corresponding [`Array`] of this [`ArrayBuilder`].
    type Array: Array<Builder = Self>;

    /// Internal well-formedness of the accumulating state. Established by
    /// `with_capacity` and preserved by `push`.
    spec fn inv(&self) -> bool;

    /// The sequence of optional values pushed so far, in push order.
    spec fn contents(&self) -> Seq<Option<<<Self::Array as Array>::OwnedItem as DeepView>::V>>;

    /// Create a new, empty builder. The capacity is a performance hint
    /// with no observable behavioral effect.
    fn with_capacity(capacity: usize) -> (r: Self)
        ensures
            r.inv(),
            r.contents() == Seq::<Option<<<Self::Array as Array>::OwnedItem as DeepView>::V>>::empty(),
    ;

    /// Append one slot: a null for `None`, else the owned copy of the
    /// given reference. Never fails; the length grows by exactly one.
    fn push<'a>(&mut self, value: Option<<Self::Array as Array>::RefItem<'a>>)
        requires
            old(self).inv(),
        ensures
            final(self).inv(),
            final(self).contents() == old(self).contents().push(value.deep_view()),
    ;

    /// Finish building and return the immutable column. Consumes the
    /// builder; the column's slots equal the pushed slots, in push order.
    fn finish(self) -> (r: Self::Array)
        requires
            self.inv(),
        ensures
            r.contents() == self.contents(),
    ;

    /// What wrapping this builder into the type-erased union yields.
    spec fn spec_wrap(self) -> ArrayBuilderImpl;

    /// The tag of the physical variant this builder builds.
    spec fn builder_kind() -> ArrayKind;

    /// Wrapping is tagged with this variant's kind.
    proof fn lemma_builder_wrap(self)
        ensures
            self.spec_wrap().kind() == Self::builder_kind(),
    ;

    /// Two distinct builders never wrap to the same type-erased value.
    proof fn lemma_builder_wrap_injective(self, other: Self)
        requires
            self.spec_wrap() == other.spec_wrap(),
        ensures
            self == other,
    ;

    /// Wrap this builder into the type-erased union. Total: always
    /// succeeds.
    fn erase(self) -> (r: ArrayBuilderImpl)
        ensures
            r == self.spec_wrap(),
    ;

    /// Narrow a type-erased builder to this concrete variant. Succeeds
    /// exactly when the tag matches; a mismatch reports the expected and
    /// the actual kind.
    fn try_unwrap(b: ArrayBuilderImpl) -> (r: Result<Self, TypeMismatch>)
        ensures
            r is Ok <==> b.kind() == Self::builder_kind(),
            match r {
                Ok(c) => c.spec_wrap() == b,
                Err(e) => e == TypeMismatch(Self::builder_kind(), b.kind()),
            },
    ;
}

/// The narrowing law: wrapping a concrete column of some kind into the
/// type-erased union always tags it with that kind, so narrowing it back
/// to the same kind succeeds ([`Array::try_narrow`] succeeds exactly on
/// matching tags) and, because wrapping is injective, yields an equal
/// column; narrowing to any other kind fails, and by `try_narrow`'s
/// contract the failure is a [`TypeMismatch`] naming the expected and the
/// actual kind.
pub proof fn lemma_narrowing_correctness<A: Array, B: Array>(c: A, c2: A)
    ensures
        c.spec_wrap().kind() == A::kind(),
        c2.spec_wrap() == c.spec_wrap() ==> c2 == c,
        B::kind() != A::kind() ==> c.spec_wrap().kind() != B::kind(),
{
    c.lemma_wrap();
    if c2.spec_wrap() == c.spec_wrap() {
        c2.lemma_wrap_injective(c);
    }
}

/// Encapsulates all variants of [`Array`] in this crate: the closed tagged
/// union by which heterogeneous columns are stored in homogeneous
/// collections.
pub enum ArrayImpl {
    Int16(I16Array),
    Int32(I32Array),
    Int64(I64Array),
    Bool(BoolArray),
    String(StringArray),
}

impl ArrayImpl {
    /// The tag of the wrapped physical variant.
    pub open spec fn kind(&self) -> ArrayKind {
        match self {
            ArrayImpl::Int16(_) => ArrayKind::Int16,
            ArrayImpl::Int32(_) => ArrayKind::Int32,
            ArrayImpl::Int64(_) => ArrayKind::Int64,
            ArrayImpl::Bool(_) => ArrayKind::Bool,
            ArrayImpl::String(_) => ArrayKind::String,
        }
    }

    /// The number of slots of the wrapped column.
    pub open spec fn spec_len(&self) -> nat {
        match self {
            ArrayImpl::Int16(a) => a.spec_len(),
            ArrayImpl::Int32(a) => a.spec_len(),
            ArrayImpl::Int64(a) => a.spec_len(),
            ArrayImpl::Bool(a) => a.spec_len(),
            ArrayImpl::String(a) => a.spec_len(),
        }
    }

    /// The tag of the wrapped physical variant.
    pub fn tag(&self) -> (k: ArrayKind)
        ensures
            k == self.kind(),
    {
        match self {
            ArrayImpl::Int16(_) => ArrayKind::Int16,
            ArrayImpl::Int32(_) => ArrayKind::Int32,
            ArrayImpl::Int64(_) => ArrayKind::Int64,
            ArrayImpl::Bool(_) => ArrayKind::Bool,
            ArrayImpl::String(_) => ArrayKind::String,
        }
    }

    /// The number of slots of the wrapped column.
    pub fn len(&self) -> (n: usize)
        ensures
            n == self.spec_len(),
    {
        match self {
            ArrayImpl::Int16(a) => {
                proof {
                    a.lemma_wrap();
                }
                a.len()
            }
            ArrayImpl::Int32(a) => {
                proof {
                    a.lemma_wrap();
                }
                a.len()
            }
            ArrayImpl::Int64(a) => {
                proof {
                    a.lemma_wrap();
                }
                a.len()
            }
            ArrayImpl::Bool(a) => {
                proof {
                    a.lemma_wrap();
                }
                a.len()
            }
            ArrayImpl::String(a) => {
                proof {
                    a.lemma_wrap();
                }
                a.len()
            }
        }
    }
}

/// Encapsulates all variants of [`ArrayBuilder`] in this crate.
pub enum ArrayBuilderImpl {
    Int16(I16ArrayBuilder),
    Int32(I32ArrayBuilder),
    Int64(I64ArrayBuilder),
    Bool(BoolArrayBuilder),
    String(StringArrayBuilder),
}

impl ArrayBuilderImpl {
    /// The tag of the wrapped builder's physical variant.
    pub open spec fn kind(&self) -> ArrayKind {
        match self {
            ArrayBuilderImpl::Int16(_) => ArrayKind::Int16,
            ArrayBuilderImpl::Int32(_) => ArrayKind::Int32,
            ArrayBuilderImpl::Int64(_) => ArrayKind::Int64,
            ArrayBuilderImpl::Bool(_) => ArrayKind::Bool,
            ArrayBuilderImpl::String(_) => ArrayKind::String,
        }
    }

    /// The tag of the wrapped builder's physical variant.
    pub fn tag(&self) -> (k: ArrayKind)
        ensures
            k == self.kind(),
    {
        match self {
            ArrayBuilderImpl::Int16(_) => ArrayKind::Int16,
            ArrayBuilderImpl::Int32(_) => ArrayKind::Int32,
            ArrayBuilderImpl::Int64(_) => ArrayKind::Int64,
            ArrayBuilderImpl::Bool(_) => ArrayKind::Bool,
            ArrayBuilderImpl::String(_) => ArrayKind::String,
        }
    }
}

} // verus!
