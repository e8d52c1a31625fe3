//! Fixed-width physical columns.
//!
//! A primitive column is backed by a dense value buffer plus a parallel
//! null indicator, one flag per slot. The two buffers always have the same
//! length; that association is the column's type invariant.

use vstd::prelude::*;

use crate::TypeMismatch;
use crate::array::{Array, ArrayBuilder, ArrayBuilderImpl, ArrayImpl, ArrayIterator, ArrayKind};

verus! {

/// An immutable, nullable column of 16-bit integers.
pub struct I16Array {
    values: Vec<i16>,
    validity: Vec<bool>,
}

impl I16Array {
    #[verifier::type_invariant]
    spec fn wf(self) -> bool {
        self.values@.len() == self.validity@.len()
    }

    /// The number of slots, available on the type itself so that the
    /// type-erased wrapper can speak about lengths without narrowing.
    pub closed spec fn spec_len(&self) -> nat {
        self.validity@.len()
    }

    /// Get an iterator over this array, positioned at the first slot.
    pub fn iter<'a>(&'a self) -> (it: ArrayIterator<'a, I16Array>)
        ensures
            it.source() == *self,
            it.position() == 0,
    {
        ArrayIterator::new(self)
    }
}

impl Array for I16Array {
    type Builder = I16ArrayBuilder;

    type OwnedItem = i16;

    type RefItem<'a> = i16;

    closed spec fn contents(&self) -> Seq<Option<i16>> {
        Seq::new(
            self.validity@.len(),
            |i: int| if self.validity@[i] { Some(self.values@[i]) } else { None },
        )
    }

    open spec fn spec_wrap(self) -> ArrayImpl {
        ArrayImpl::Int16(self)
    }

    open spec fn kind() -> ArrayKind {
        ArrayKind::Int16
    }

    proof fn lemma_wrap(self) {
    }

    proof fn lemma_wrap_injective(self, other: Self) {
    }

    fn get<'a>(&'a self, idx: usize) -> (r: Option<i16>) {
        proof {
            use_type_invariant(&*self);
        }
        if self.validity[idx] {
            Some(self.values[idx])
        } else {
            None
        }
    }

    fn len(&self) -> (n: usize) {
        self.validity.len()
    }

    fn erase(self) -> (r: ArrayImpl) {
        ArrayImpl::Int16(self)
    }

    fn try_narrow<'a>(a: &'a ArrayImpl) -> (r: Result<&'a Self, TypeMismatch>) {
        match a {
            ArrayImpl::Int16(c) => Ok(c),
            _ => Err(TypeMismatch(ArrayKind::Int16, a.tag())),
        }
    }

    fn try_unwrap(a: ArrayImpl) -> (r: Result<Self, TypeMismatch>) {
        match a {
            ArrayImpl::Int16(c) => Ok(c),
            _ => Err(TypeMismatch(ArrayKind::Int16, a.tag())),
        }
    }
}

/// The builder of [`I16Array`].
pub struct I16ArrayBuilder {
    values: Vec<i16>,
    validity: Vec<bool>,
}

impl ArrayBuilder for I16ArrayBuilder {
    type Array = I16Array;

    closed spec fn inv(&self) -> bool {
        self.values@.len() == self.validity@.len()
    }

    closed spec fn contents(&self) -> Seq<Option<i16>> {
        Seq::new(
            self.validity@.len(),
            |i: int| if self.validity@[i] { Some(self.values@[i]) } else { None },
        )
    }

    fn with_capacity(capacity: usize) -> (r: Self) {
        let r = I16ArrayBuilder { values: Vec::new(), validity: Vec::new() };
        proof {
            assert(r.contents() =~= Seq::<Option<i16>>::empty());
        }
        r
    }

    fn push<'a>(&mut self, value: Option<i16>) {
        match value {
            Some(v) => {
                self.values.push(v);
                self.validity.push(true);
            }
            None => {
                self.values.push(0);
                self.validity.push(false);
            }
        }
        proof {
            assert(self.contents() =~= old(self).contents().push(value.deep_view()));
        }
    }

    fn finish(self) -> (r: I16Array) {
        I16Array { values: self.values, validity: self.validity }
    }

    open spec fn spec_wrap(self) -> ArrayBuilderImpl {
        ArrayBuilderImpl::Int16(self)
    }

    open spec fn builder_kind() -> ArrayKind {
        ArrayKind::Int16
    }

    proof fn lemma_builder_wrap(self) {
    }

    proof fn lemma_builder_wrap_injective(self, other: Self) {
    }

    fn erase(self) -> (r: ArrayBuilderImpl) {
        ArrayBuilderImpl::Int16(self)
    }

    fn try_unwrap(b: ArrayBuilderImpl) -> (r: Result<Self, TypeMismatch>) {
        match b {
            ArrayBuilderImpl::Int16(c) => Ok(c),
            _ => Err(TypeMismatch(ArrayKind::Int16, b.tag())),
        }
    }
}

/// An immutable, nullable column of 32-bit integers.
pub struct I32Array {
    values: Vec<i32>,
    validity: Vec<bool>,
}

impl I32Array {
    #[verifier::type_invariant]
    spec fn wf(self) -> bool {
        self.values@.len() == self.validity@.len()
    }

    /// The number of slots, available on the type itself so that the
    /// type-erased wrapper can speak about lengths without narrowing.
    pub closed spec fn spec_len(&self) -> nat {
        self.validity@.len()
    }

    /// Get an iterator over this array, positioned at the first slot.
    pub fn iter<'a>(&'a self) -> (it: ArrayIterator<'a, I32Array>)
        ensures
            it.source() == *self,
            it.position() == 0,
    {
        ArrayIterator::new(self)
    }
}

impl Array for I32Array {
    type Builder = I32ArrayBuilder;

    type OwnedItem = i32;

    type RefItem<'a> = i32;

    closed spec fn contents(&self) -> Seq<Option<i32>> {
        Seq::new(
            self.validity@.len(),
            |i: int| if self.validity@[i] { Some(self.values@[i]) } else { None },
        )
    }

    open spec fn spec_wrap(self) -> ArrayImpl {
        ArrayImpl::Int32(self)
    }

    open spec fn kind() -> ArrayKind {
        ArrayKind::Int32
    }

    proof fn lemma_wrap(self) {
    }

    proof fn lemma_wrap_injective(self, other: Self) {
    }

    fn get<'a>(&'a self, idx: usize) -> (r: Option<i32>) {
        proof {
            use_type_invariant(&*self);
        }
        if self.validity[idx] {
            Some(self.values[idx])
        } else {
            None
        }
    }

    fn len(&self) -> (n: usize) {
        self.validity.len()
    }

    fn erase(self) -> (r: ArrayImpl) {
        ArrayImpl::Int32(self)
    }

    fn try_narrow<'a>(a: &'a ArrayImpl) -> (r: Result<&'a Self, TypeMismatch>) {
        match a {
            ArrayImpl::Int32(c) => Ok(c),
            _ => Err(TypeMismatch(ArrayKind::Int32, a.tag())),
        }
    }

    fn try_unwrap(a: ArrayImpl) -> (r: Result<Self, TypeMismatch>) {
        match a {
            ArrayImpl::Int32(c) => Ok(c),
            _ => Err(TypeMismatch(ArrayKind::Int32, a.tag())),
        }
    }
}

/// The builder of [`I32Array`].
pub struct I32ArrayBuilder {
    values: Vec<i32>,
    validity: Vec<bool>,
}

impl ArrayBuilder for I32ArrayBuilder {
    type Array = I32Array;

    closed spec fn inv(&self) -> bool {
        self.values@.len() == self.validity@.len()
    }

    closed spec fn contents(&self) -> Seq<Option<i32>> {
        Seq::new(
            self.validity@.len(),
            |i: int| if self.validity@[i] { Some(self.values@[i]) } else { None },
        )
    }

    fn with_capacity(capacity: usize) -> (r: Self) {
        let r = I32ArrayBuilder { values: Vec::new(), validity: Vec::new() };
        proof {
            assert(r.contents() =~= Seq::<Option<i32>>::empty());
        }
        r
    }

    fn push<'a>(&mut self, value: Option<i32>) {
        match value {
            Some(v) => {
                self.values.push(v);
                self.validity.push(true);
            }
            None => {
                self.values.push(0);
                self.validity.push(false);
            }
        }
        proof {
            assert(self.contents() =~= old(self).contents().push(value.deep_view()));
        }
    }

    fn finish(self) -> (r: I32Array) {
        I32Array { values: self.values, validity: self.validity }
    }

    open spec fn spec_wrap(self) -> ArrayBuilderImpl {
        ArrayBuilderImpl::Int32(self)
    }

    open spec fn builder_kind() -> ArrayKind {
        ArrayKind::Int32
    }

    proof fn lemma_builder_wrap(self) {
    }

    proof fn lemma_builder_wrap_injective(self, other: Self) {
    }

    fn erase(self) -> (r: ArrayBuilderImpl) {
        ArrayBuilderImpl::Int32(self)
    }

    fn try_unwrap(b: ArrayBuilderImpl) -> (r: Result<Self, TypeMismatch>) {
        match b {
            ArrayBuilderImpl::Int32(c) => Ok(c),
            _ => Err(TypeMismatch(ArrayKind::Int32, b.tag())),
        }
    }
}

/// An immutable, nullable column of 64-bit integers.
pub struct I64Array {
    values: Vec<i64>,
    validity: Vec<bool>,
}

impl I64Array {
    #[verifier::type_invariant]
    spec fn wf(self) -> bool {
        self.values@.len() == self.validity@.len()
    }

    /// The number of slots, available on the type itself so that the
    /// type-erased wrapper can speak about lengths without narrowing.
    pub closed spec fn spec_len(&self) -> nat {
        self.validity@.len()
    }

    /// Get an iterator over this array, positioned at the first slot.
    pub fn iter<'a>(&'a self) -> (it: ArrayIterator<'a, I64Array>)
        ensures
            it.source() == *self,
            it.position() == 0,
    {
        ArrayIterator::new(self)
    }
}

impl Array for I64Array {
    type Builder = I64ArrayBuilder;

    type OwnedItem = i64;

    type RefItem<'a> = i64;

    closed spec fn contents(&self) -> Seq<Option<i64>> {
        Seq::new(
            self.validity@.len(),
            |i: int| if self.validity@[i] { Some(self.values@[i]) } else { None },
        )
    }

    open spec fn spec_wrap(self) -> ArrayImpl {
        ArrayImpl::Int64(self)
    }

    open spec fn kind() -> ArrayKind {
        ArrayKind::Int64
    }

    proof fn lemma_wrap(self) {
    }

    proof fn lemma_wrap_injective(self, other: Self) {
    }

    fn get<'a>(&'a self, idx: usize) -> (r: Option<i64>) {
        proof {
            use_type_invariant(&*self);
        }
        if self.validity[idx] {
            Some(self.values[idx])
        } else {
            None
        }
    }

    fn len(&self) -> (n: usize) {
        self.validity.len()
    }

    fn erase(self) -> (r: ArrayImpl) {
        ArrayImpl::Int64(self)
    }

    fn try_narrow<'a>(a: &'a ArrayImpl) -> (r: Result<&'a Self, TypeMismatch>) {
        match a {
            ArrayImpl::Int64(c) => Ok(c),
            _ => Err(TypeMismatch(ArrayKind::Int64, a.tag())),
        }
    }

    fn try_unwrap(a: ArrayImpl) -> (r: Result<Self, TypeMismatch>) {
        match a {
            ArrayImpl::Int64(c) => Ok(c),
            _ => Err(TypeMismatch(ArrayKind::Int64, a.tag())),
        }
    }
}

/// The builder of [`I64Array`].
pub struct I64ArrayBuilder {
    values: Vec<i64>,
    validity: Vec<bool>,
}

impl ArrayBuilder for I64ArrayBuilder {
    type Array = I64Array;

    closed spec fn inv(&self) -> bool {
        self.values@.len() == self.validity@.len()
    }

    closed spec fn contents(&self) -> Seq<Option<i64>> {
        Seq::new(
            self.validity@.len(),
            |i: int| if self.validity@[i] { Some(self.values@[i]) } else { None },
        )
    }

    fn with_capacity(capacity: usize) -> (r: Self) {
        let r = I64ArrayBuilder { values: Vec::new(), validity: Vec::new() };
        proof {
            assert(r.contents() =~= Seq::<Option<i64>>::empty());
        }
        r
    }

    fn push<'a>(&mut self, value: Option<i64>) {
        match value {
            Some(v) => {
                self.values.push(v);
                self.validity.push(true);
            }
            None => {
                self.values.push(0);
                self.validity.push(false);
            }
        }
        proof {
            assert(self.contents() =~= old(self).contents().push(value.deep_view()));
        }
    }

    fn finish(self) -> (r: I64Array) {
        I64Array { values: self.values, validity: self.validity }
    }

    open spec fn spec_wrap(self) -> ArrayBuilderImpl {
        ArrayBuilderImpl::Int64(self)
    }

    open spec fn builder_kind() -> ArrayKind {
        ArrayKind::Int64
    }

    proof fn lemma_builder_wrap(self) {
    }

    proof fn lemma_builder_wrap_injective(self, other: Self) {
    }

    fn erase(self) -> (r: ArrayBuilderImpl) {
        ArrayBuilderImpl::Int64(self)
    }

    fn try_unwrap(b: ArrayBuilderImpl) -> (r: Result<Self, TypeMismatch>) {
        match b {
            ArrayBuilderImpl::Int64(c) => Ok(c),
            _ => Err(TypeMismatch(ArrayKind::Int64, b.tag())),
        }
    }
}

/// An immutable, nullable column of booleans.
pub struct BoolArray {
    values: Vec<bool>,
    validity: Vec<bool>,
}

impl BoolArray {
    #[verifier::type_invariant]
    spec fn wf(self) -> bool {
        self.values@.len() == self.validity@.len()
    }

    /// The number of slots, available on the type itself so that the
    /// type-erased wrapper can speak about lengths without narrowing.
    pub closed spec fn spec_len(&self) -> nat {
        self.validity@.len()
    }

    /// Get an iterator over this array, positioned at the first slot.
    pub fn iter<'a>(&'a self) -> (it: ArrayIterator<'a, BoolArray>)
        ensures
            it.source() == *self,
            it.position() == 0,
    {
        ArrayIterator::new(self)
    }
}

impl Array for BoolArray {
    type Builder = BoolArrayBuilder;

    type OwnedItem = bool;

    type RefItem<'a> = bool;

    closed spec fn contents(&self) -> Seq<Option<bool>> {
        Seq::new(
            self.validity@.len(),
            |i: int| if self.validity@[i] { Some(self.values@[i]) } else { None },
        )
    }

    open spec fn spec_wrap(self) -> ArrayImpl {
        ArrayImpl::Bool(self)
    }

    open spec fn kind() -> ArrayKind {
        ArrayKind::Bool
    }

    proof fn lemma_wrap(self) {
    }

    proof fn lemma_wrap_injective(self, other: Self) {
    }

    fn get<'a>(&'a self, idx: usize) -> (r: Option<bool>) {
        proof {
            use_type_invariant(&*self);
        }
        if self.validity[idx] {
            Some(self.values[idx])
        } else {
            None
        }
    }

    fn len(&self) -> (n: usize) {
        self.validity.len()
    }

    fn erase(self) -> (r: ArrayImpl) {
        ArrayImpl::Bool(self)
    }

    fn try_narrow<'a>(a: &'a ArrayImpl) -> (r: Result<&'a Self, TypeMismatch>) {
        match a {
            ArrayImpl::Bool(c) => Ok(c),
            _ => Err(TypeMismatch(ArrayKind::Bool, a.tag())),
        }
    }

    fn try_unwrap(a: ArrayImpl) -> (r: Result<Self, TypeMismatch>) {
        match a {
            ArrayImpl::Bool(c) => Ok(c),
            _ => Err(TypeMismatch(ArrayKind::Bool, a.tag())),
        }
    }
}

/// The builder of [`BoolArray`].
pub struct BoolArrayBuilder {
    values: Vec<bool>,
    validity: Vec<bool>,
}

impl ArrayBuilder for BoolArrayBuilder {
    type Array = BoolArray;

    closed spec fn inv(&self) -> bool {
        self.values@.len() == self.validity@.len()
    }

    closed spec fn contents(&self) -> Seq<Option<bool>> {
        Seq::new(
            self.validity@.len(),
            |i: int| if self.validity@[i] { Some(self.values@[i]) } else { None },
        )
    }

    fn with_capacity(capacity: usize) -> (r: Self) {
        let r = BoolArrayBuilder { values: Vec::new(), validity: Vec::new() };
        proof {
            assert(r.contents() =~= Seq::<Option<bool>>::empty());
        }
        r
    }

    fn push<'a>(&mut self, value: Option<bool>) {
        match value {
            Some(v) => {
                self.values.push(v);
                self.validity.push(true);
            }
            None => {
                self.values.push(false);
                self.validity.push(false);
            }
        }
        proof {
            assert(self.contents() =~= old(self).contents().push(value.deep_view()));
        }
    }

    fn finish(self) -> (r: BoolArray) {
        BoolArray { values: self.values, validity: self.validity }
    }

    open spec fn spec_wrap(self) -> ArrayBuilderImpl {
        ArrayBuilderImpl::Bool(self)
    }

    open spec fn builder_kind() -> ArrayKind {
        ArrayKind::Bool
    }

    proof fn lemma_builder_wrap(self) {
    }

    proof fn lemma_builder_wrap_injective(self, other: Self) {
    }

    fn erase(self) -> (r: ArrayBuilderImpl) {
        ArrayBuilderImpl::Bool(self)
    }

    fn try_unwrap(b: ArrayBuilderImpl) -> (r: Result<Self, TypeMismatch>) {
        match b {
            ArrayBuilderImpl::Bool(c) => Ok(c),
            _ => Err(TypeMismatch(ArrayKind::Bool, b.tag())),
        }
    }
}

} // verus!
