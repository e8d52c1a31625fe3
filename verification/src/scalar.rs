//! Single values and their borrowed counterparts.
//!
//! This module contains two reciprocal traits, [`Scalar`] and [`ScalarRef`].
//! A `Scalar` is an owned single value; a `ScalarRef` is a borrowed,
//! non-owning view of a value living inside a column. Each owned type
//! names its one borrowed counterpart, which names the owned type back,
//! so each physical type has exactly one owned representation and one
//! borrowed representation, and the association is closed at compile
//! time. The one column type both belong to names them through
//! [`crate::array::Array`].

use vstd::prelude::*;

use crate::TypeMismatch;
use crate::array::ArrayKind;

verus! {

/// An owned single value.
///
/// For example, `i32` and `String` both implement [`Scalar`].
///
/// The contracts speak about values through [`DeepView`]: for numeric types
/// and `bool` the mathematical value is the value itself, for `String` it is
/// the sequence of characters. `as_scalar_ref` is a cheap projection that
/// must not change the mathematical value.
pub trait Scalar: Sized + Send + Sync + DeepView + 'static {
    /// The corresponding [`ScalarRef`] type: the one borrowed counterpart
    /// of this owned type. The constraint `ScalarType = Self` closes the
    /// association: the borrowed type names this owned type back.
    type RefType<'a>: ScalarRef<'a, ScalarType = Self> + DeepView<V = Self::V>;

    /// Get a reference to the current value.
    fn as_scalar_ref<'a>(&'a self) -> (r: Self::RefType<'a>)
        ensures
            r.deep_view() == self.deep_view(),
    ;

    /// What wrapping this value into the type-erased union yields.
    spec fn spec_wrap(self) -> ScalarImpl;

    /// The tag of the physical variant this value belongs to.
    spec fn kind() -> ArrayKind;

    /// Wrapping is tagged with this variant's kind.
    proof fn lemma_wrap(self)
        ensures
            self.spec_wrap().kind() == Self::kind(),
    ;

    /// Two distinct values never wrap to the same type-erased value.
    proof fn lemma_wrap_injective(self, other: Self)
        requires
            self.spec_wrap() == other.spec_wrap(),
        ensures
            self == other,
    ;

    /// Wrap this value into the type-erased union. Total: always succeeds.
    fn erase(self) -> (r: ScalarImpl)
        ensures
            r == self.spec_wrap(),
    ;

    /// Narrow a type-erased value to this concrete variant. Succeeds
    /// exactly when the tag matches; a mismatch reports the expected and
    /// the actual kind.
    fn try_unwrap(s: ScalarImpl) -> (r: Result<Self, TypeMismatch>)
        ensures
            r is Ok <==> s.kind() == Self::kind(),
            match r {
                Ok(c) => c.spec_wrap() == s,
                Err(e) => e == TypeMismatch(Self::kind(), s.kind()),
            },
    ;
}

/// A borrowed value.
///
/// For example, `i32` and `&str` both implement [`ScalarRef`].
///
/// `to_owned_scalar` is a (possibly allocating) total copy; it must not
/// change the mathematical value, so together with
/// [`Scalar::as_scalar_ref`] the two conversions are inverses under value
/// equality.
pub trait ScalarRef<'a>: Sized + Copy + Send + DeepView + 'a {
    /// The corresponding [`Scalar`] type: the owned counterpart this
    /// reference converts into. It abstracts to the same mathematical
    /// value as the reference itself.
    type ScalarType: DeepView<V = Self::V>;

    /// Convert the reference into an owned value.
    fn to_owned_scalar(&self) -> (r: Self::ScalarType)
        ensures
            r.deep_view() == self.deep_view(),
    ;

    /// What wrapping this reference into the type-erased union yields.
    spec fn spec_wrap(self) -> ScalarRefImpl<'a>;

    /// The tag of the physical variant this reference belongs to.
    spec fn kind() -> ArrayKind;

    /// Wrapping is tagged with this variant's kind.
    proof fn lemma_wrap(self)
        ensures
            self.spec_wrap().kind() == Self::kind(),
    ;

    /// Two distinct references never wrap to the same type-erased value.
    proof fn lemma_wrap_injective(self, other: Self)
        requires
            self.spec_wrap() == other.spec_wrap(),
        ensures
            self == other,
    ;

    /// Wrap this reference into the type-erased union. Total: always
    /// succeeds.
    fn erase(self) -> (r: ScalarRefImpl<'a>)
        ensures
            r == self.spec_wrap(),
    ;

    /// Narrow a type-erased reference to this concrete variant. Succeeds
    /// exactly when the tag matches; a mismatch reports the expected and
    /// the actual kind.
    fn try_unwrap(s: ScalarRefImpl<'a>) -> (r: Result<Self, TypeMismatch>)
        ensures
            r is Ok <==> s.kind() == Self::kind(),
            match r {
                Ok(c) => c.spec_wrap() == s,
                Err(e) => e == TypeMismatch(Self::kind(), s.kind()),
            },
    ;
}

/// Encapsulates all variants of [`Scalar`] in this crate.
pub enum ScalarImpl {
    Int16(i16),
    Int32(i32),
    Int64(i64),
    Bool(bool),
    String(String),
}

impl ScalarImpl {
    /// The tag of the wrapped value's physical variant.
    pub open spec fn kind(&self) -> ArrayKind {
        match self {
            ScalarImpl::Int16(_) => ArrayKind::Int16,
            ScalarImpl::Int32(_) => ArrayKind::Int32,
            ScalarImpl::Int64(_) => ArrayKind::Int64,
            ScalarImpl::Bool(_) => ArrayKind::Bool,
            ScalarImpl::String(_) => ArrayKind::String,
        }
    }

    /// The tag of the wrapped value's physical variant.
    pub fn tag(&self) -> (k: ArrayKind)
        ensures
            k == self.kind(),
    {
        match self {
            ScalarImpl::Int16(_) => ArrayKind::Int16,
            ScalarImpl::Int32(_) => ArrayKind::Int32,
            ScalarImpl::Int64(_) => ArrayKind::Int64,
            ScalarImpl::Bool(_) => ArrayKind::Bool,
            ScalarImpl::String(_) => ArrayKind::String,
        }
    }
}

/// Encapsulates all variants of [`ScalarRef`] in this crate.
pub enum ScalarRefImpl<'a> {
    Int16(i16),
    Int32(i32),
    Int64(i64),
    Bool(bool),
    String(&'a str),
}

impl<'a> ScalarRefImpl<'a> {
    /// The tag of the wrapped reference's physical variant.
    pub open spec fn kind(&self) -> ArrayKind {
        match self {
            ScalarRefImpl::Int16(_) => ArrayKind::Int16,
            ScalarRefImpl::Int32(_) => ArrayKind::Int32,
            ScalarRefImpl::Int64(_) => ArrayKind::Int64,
            ScalarRefImpl::Bool(_) => ArrayKind::Bool,
            ScalarRefImpl::String(_) => ArrayKind::String,
        }
    }

    /// The tag of the wrapped reference's physical variant.
    pub fn tag(&self) -> (k: ArrayKind)
        ensures
            k == self.kind(),
    {
        match self {
            ScalarRefImpl::Int16(_) => ArrayKind::Int16,
            ScalarRefImpl::Int32(_) => ArrayKind::Int32,
            ScalarRefImpl::Int64(_) => ArrayKind::Int64,
            ScalarRefImpl::Bool(_) => ArrayKind::Bool,
            ScalarRefImpl::String(_) => ArrayKind::String,
        }
    }
}

/// The round-trip law: taking a reference of an owned value and turning
/// that reference back into an owned value yields the original
/// mathematical value. The two premises are exactly what
/// [`Scalar::as_scalar_ref`] and [`ScalarRef::to_owned_scalar`] ensure,
/// so the two conversions are inverses under value equality for every
/// scalar type.
pub proof fn lemma_scalar_round_trip<'a, S: Scalar>(v: S, r: S::RefType<'a>, w: S)
    requires
        r.deep_view() == v.deep_view(),
        w.deep_view() == r.deep_view(),
    ensures
        w.deep_view() == v.deep_view(),
{
}

impl Scalar for i16 {
    type RefType<'a> = i16;

    fn as_scalar_ref<'a>(&'a self) -> (r: i16) {
        *self
    }

    open spec fn spec_wrap(self) -> ScalarImpl {
        ScalarImpl::Int16(self)
    }

    open spec fn kind() -> ArrayKind {
        ArrayKind::Int16
    }

    proof fn lemma_wrap(self) {
    }

    proof fn lemma_wrap_injective(self, other: Self) {
    }

    fn erase(self) -> (r: ScalarImpl) {
        ScalarImpl::Int16(self)
    }

    fn try_unwrap(s: ScalarImpl) -> (r: Result<Self, TypeMismatch>) {
        match s {
            ScalarImpl::Int16(v) => Ok(v),
            _ => Err(TypeMismatch(ArrayKind::Int16, s.tag())),
        }
    }
}

impl<'a> ScalarRef<'a> for i16 {
    type ScalarType = i16;

    fn to_owned_scalar(&self) -> (r: i16) {
        *self
    }

    open spec fn spec_wrap(self) -> ScalarRefImpl<'a> {
        ScalarRefImpl::Int16(self)
    }

    open spec fn kind() -> ArrayKind {
        ArrayKind::Int16
    }

    proof fn lemma_wrap(self) {
    }

    proof fn lemma_wrap_injective(self, other: Self) {
    }

    fn erase(self) -> (r: ScalarRefImpl<'a>) {
        ScalarRefImpl::Int16(self)
    }

    fn try_unwrap(s: ScalarRefImpl<'a>) -> (r: Result<Self, TypeMismatch>) {
        match s {
            ScalarRefImpl::Int16(v) => Ok(v),
            _ => Err(TypeMismatch(ArrayKind::Int16, s.tag())),
        }
    }
}

impl Scalar for i32 {
    type RefType<'a> = i32;

    fn as_scalar_ref<'a>(&'a self) -> (r: i32) {
        *self
    }

    open spec fn spec_wrap(self) -> ScalarImpl {
        ScalarImpl::Int32(self)
    }

    open spec fn kind() -> ArrayKind {
        ArrayKind::Int32
    }

    proof fn lemma_wrap(self) {
    }

    proof fn lemma_wrap_injective(self, other: Self) {
    }

    fn erase(self) -> (r: ScalarImpl) {
        ScalarImpl::Int32(self)
    }

    fn try_unwrap(s: ScalarImpl) -> (r: Result<Self, TypeMismatch>) {
        match s {
            ScalarImpl::Int32(v) => Ok(v),
            _ => Err(TypeMismatch(ArrayKind::Int32, s.tag())),
        }
    }
}

impl<'a> ScalarRef<'a> for i32 {
    type ScalarType = i32;

    fn to_owned_scalar(&self) -> (r: i32) {
        *self
    }

    open spec fn spec_wrap(self) -> ScalarRefImpl<'a> {
        ScalarRefImpl::Int32(self)
    }

    open spec fn kind() -> ArrayKind {
        ArrayKind::Int32
    }

    proof fn lemma_wrap(self) {
    }

    proof fn lemma_wrap_injective(self, other: Self) {
    }

    fn erase(self) -> (r: ScalarRefImpl<'a>) {
        ScalarRefImpl::Int32(self)
    }

    fn try_unwrap(s: ScalarRefImpl<'a>) -> (r: Result<Self, TypeMismatch>) {
        match s {
            ScalarRefImpl::Int32(v) => Ok(v),
            _ => Err(TypeMismatch(ArrayKind::Int32, s.tag())),
        }
    }
}

impl Scalar for i64 {
    type RefType<'a> = i64;

    fn as_scalar_ref<'a>(&'a self) -> (r: i64) {
        *self
    }

    open spec fn spec_wrap(self) -> ScalarImpl {
        ScalarImpl::Int64(self)
    }

    open spec fn kind() -> ArrayKind {
        ArrayKind::Int64
    }

    proof fn lemma_wrap(self) {
    }

    proof fn lemma_wrap_injective(self, other: Self) {
    }

    fn erase(self) -> (r: ScalarImpl) {
        ScalarImpl::Int64(self)
    }

    fn try_unwrap(s: ScalarImpl) -> (r: Result<Self, TypeMismatch>) {
        match s {
            ScalarImpl::Int64(v) => Ok(v),
            _ => Err(TypeMismatch(ArrayKind::Int64, s.tag())),
        }
    }
}

impl<'a> ScalarRef<'a> for i64 {
    type ScalarType = i64;

    fn to_owned_scalar(&self) -> (r: i64) {
        *self
    }

    open spec fn spec_wrap(self) -> ScalarRefImpl<'a> {
        ScalarRefImpl::Int64(self)
    }

    open spec fn kind() -> ArrayKind {
        ArrayKind::Int64
    }

    proof fn lemma_wrap(self) {
    }

    proof fn lemma_wrap_injective(self, other: Self) {
    }

    fn erase(self) -> (r: ScalarRefImpl<'a>) {
        ScalarRefImpl::Int64(self)
    }

    fn try_unwrap(s: ScalarRefImpl<'a>) -> (r: Result<Self, TypeMismatch>) {
        match s {
            ScalarRefImpl::Int64(v) => Ok(v),
            _ => Err(TypeMismatch(ArrayKind::Int64, s.tag())),
        }
    }
}

impl Scalar for bool {
    type RefType<'a> = bool;

    fn as_scalar_ref<'a>(&'a self) -> (r: bool) {
        *self
    }

    open spec fn spec_wrap(self) -> ScalarImpl {
        ScalarImpl::Bool(self)
    }

    open spec fn kind() -> ArrayKind {
        ArrayKind::Bool
    }

    proof fn lemma_wrap(self) {
    }

    proof fn lemma_wrap_injective(self, other: Self) {
    }

    fn erase(self) -> (r: ScalarImpl) {
        ScalarImpl::Bool(self)
    }

    fn try_unwrap(s: ScalarImpl) -> (r: Result<Self, TypeMismatch>) {
        match s {
            ScalarImpl::Bool(v) => Ok(v),
            _ => Err(TypeMismatch(ArrayKind::Bool, s.tag())),
        }
    }
}

impl<'a> ScalarRef<'a> for bool {
    type ScalarType = bool;

    fn to_owned_scalar(&self) -> (r: bool) {
        *self
    }

    open spec fn spec_wrap(self) -> ScalarRefImpl<'a> {
        ScalarRefImpl::Bool(self)
    }

    open spec fn kind() -> ArrayKind {
        ArrayKind::Bool
    }

    proof fn lemma_wrap(self) {
    }

    proof fn lemma_wrap_injective(self, other: Self) {
    }

    fn erase(self) -> (r: ScalarRefImpl<'a>) {
        ScalarRefImpl::Bool(self)
    }

    fn try_unwrap(s: ScalarRefImpl<'a>) -> (r: Result<Self, TypeMismatch>) {
        match s {
            ScalarRefImpl::Bool(v) => Ok(v),
            _ => Err(TypeMismatch(ArrayKind::Bool, s.tag())),
        }
    }
}

impl Scalar for String {
    type RefType<'a> = &'a str;

    fn as_scalar_ref<'a>(&'a self) -> (r: &'a str) {
        self.as_str()
    }

    open spec fn spec_wrap(self) -> ScalarImpl {
        ScalarImpl::String(self)
    }

    open spec fn kind() -> ArrayKind {
        ArrayKind::String
    }

    proof fn lemma_wrap(self) {
    }

    proof fn lemma_wrap_injective(self, other: Self) {
    }

    fn erase(self) -> (r: ScalarImpl) {
        ScalarImpl::String(self)
    }

    fn try_unwrap(s: ScalarImpl) -> (r: Result<Self, TypeMismatch>) {
        match s {
            ScalarImpl::String(v) => Ok(v),
            _ => Err(TypeMismatch(ArrayKind::String, s.tag())),
        }
    }
}

impl<'a> ScalarRef<'a> for &'a str {
    type ScalarType = String;

    fn to_owned_scalar(&self) -> (r: String) {
        (*self).to_owned()
    }

    open spec fn spec_wrap(self) -> ScalarRefImpl<'a> {
        ScalarRefImpl::String(self)
    }

    open spec fn kind() -> ArrayKind {
        ArrayKind::String
    }

    proof fn lemma_wrap(self) {
    }

    proof fn lemma_wrap_injective(self, other: Self) {
    }

    fn erase(self) -> (r: ScalarRefImpl<'a>) {
        ScalarRefImpl::String(self)
    }

    fn try_unwrap(s: ScalarRefImpl<'a>) -> (r: Result<Self, TypeMismatch>) {
        match s {
            ScalarRefImpl::String(v) => Ok(v),
            _ => Err(TypeMismatch(ArrayKind::String, s.tag())),
        }
    }
}

} // verus!
