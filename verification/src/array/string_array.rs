//! The variable-width physical column for text.
//!
//! A text column is backed by one contiguous byte buffer holding the
//! UTF-8 encoding of all present values, an offset buffer with one more
//! entry than the column has slots, and a parallel null indicator. Slot
//! `i`'s bytes lie between `offsets[i]` and `offsets[i + 1]`; borrowed
//! items are string slices into the byte buffer, with a lifetime tied to
//! the column. The offsets start at zero, never decrease, end at the
//! buffer's length, and every slot's byte range is valid UTF-8; that
//! association is the column's invariant.

use vstd::prelude::*;
use vstd::slice::slice_subrange;
use vstd::string::StringSliceAdditionalSpecFns;
use vstd::utf8::{decode_utf8, valid_utf8};

use crate::TypeMismatch;
use crate::array::{Array, ArrayBuilder, ArrayBuilderImpl, ArrayImpl, ArrayIterator, ArrayKind};

verus! {

broadcast use vstd::utf8::encode_utf8_decode_utf8, vstd::utf8::encode_utf8_valid_utf8;

/// The byte range of slot `i` under the given buffers.
spec fn slot_bytes(bytes: Seq<u8>, offsets: Seq<usize>, i: int) -> Seq<u8> {
    bytes.subrange(offsets[i] as int, offsets[i + 1] as int)
}

/// Well-formedness of a text column's three buffers: one more offset
/// than slots, offsets from zero to the buffer's end in non-decreasing
/// order, and valid UTF-8 in every slot's range.
spec fn text_wf(bytes: Seq<u8>, offsets: Seq<usize>, validity: Seq<bool>) -> bool {
    &&& offsets.len() == validity.len() + 1
    &&& offsets[0] == 0
    &&& offsets[offsets.len() - 1] == bytes.len()
    &&& forall|i: int, j: int|
        0 <= i <= j < offsets.len() ==> #[trigger] offsets[i] <= #[trigger] offsets[j]
    &&& forall|i: int|
        0 <= i < validity.len() ==> valid_utf8(#[trigger] slot_bytes(bytes, offsets, i))
}

/// The slots a text column holds: the decoded characters of each present
/// slot's byte range, `None` for each null slot.
spec fn text_slots(bytes: Seq<u8>, offsets: Seq<usize>, validity: Seq<bool>) -> Seq<
    Option<Seq<char>>,
> {
    Seq::new(
        validity.len(),
        |i: int|
            if validity[i] {
                Some(decode_utf8(slot_bytes(bytes, offsets, i)))
            } else {
                None
            },
    )
}

/// Relies on core::str::from_utf8: it returns `Ok` exactly when the
/// bytes are valid UTF-8, and the returned string slice views exactly
/// those bytes.
#[verifier::external_body]
fn bytes_as_str(b: &[u8]) -> (r: Option<&str>)
    ensures
        r is Some <==> valid_utf8(b@),
        match r {
            Some(s) => s.spec_bytes() == b@,
            None => true,
        },
{
    core::str::from_utf8(b).ok()
}

/// An immutable, nullable column of text values.
pub struct StringArray {
    bytes: Vec<u8>,
    offsets: Vec<usize>,
    validity: Vec<bool>,
}

impl StringArray {
    #[verifier::type_invariant]
    spec fn wf(self) -> bool {
        text_wf(self.bytes@, self.offsets@, self.validity@)
    }

    /// The number of slots, available on the type itself so that the
    /// type-erased wrapper can speak about lengths without narrowing.
    pub closed spec fn spec_len(&self) -> nat {
        self.validity@.len()
    }

    /// Get an iterator over this array, positioned at the first slot.
    pub fn iter<'a>(&'a self) -> (it: ArrayIterator<'a, StringArray>)
        ensures
            it.source() == *self,
            it.position() == 0,
    {
        ArrayIterator::new(self)
    }
}

impl Array for StringArray {
    type Builder = StringArrayBuilder;

    type OwnedItem = String;

    type RefItem<'a> = &'a str;

    closed spec fn contents(&self) -> Seq<Option<Seq<char>>> {
        text_slots(self.bytes@, self.offsets@, self.validity@)
    }

    open spec fn spec_wrap(self) -> ArrayImpl {
        ArrayImpl::String(self)
    }

    open spec fn kind() -> ArrayKind {
        ArrayKind::String
    }

    proof fn lemma_wrap(self) {
    }

    proof fn lemma_wrap_injective(self, other: Self) {
    }

    fn get<'a>(&'a self, idx: usize) -> (r: Option<&'a str>) {
        proof {
            use_type_invariant(&*self);
        }
        if self.validity[idx] {
            let n_off = self.offsets.len();
            let start = self.offsets[idx];
            let end = self.offsets[idx + 1];
            let sl: &[u8] = slice_subrange(self.bytes.as_slice(), start, end);
            match bytes_as_str(sl) {
                Some(s) => {
                    proof {
                        assert(s.spec_bytes() == slot_bytes(
                            self.bytes@,
                            self.offsets@,
                            idx as int,
                        ));
                    }
                    Some(s)
                }
                None => {
                    proof {
                        assert(false);
                    }
                    None
                }
            }
        } else {
            None
        }
    }

    fn len(&self) -> (n: usize) {
        self.validity.len()
    }

    fn erase(self) -> (r: ArrayImpl) {
        ArrayImpl::String(self)
    }

    fn try_narrow<'a>(a: &'a ArrayImpl) -> (r: Result<&'a Self, TypeMismatch>) {
        match a {
            ArrayImpl::String(c) => Ok(c),
            _ => Err(TypeMismatch(ArrayKind::String, a.tag())),
        }
    }

    fn try_unwrap(a: ArrayImpl) -> (r: Result<Self, TypeMismatch>) {
        match a {
            ArrayImpl::String(c) => Ok(c),
            _ => Err(TypeMismatch(ArrayKind::String, a.tag())),
        }
    }
}

/// The builder of [`StringArray`]. It grows the same three buffers the
/// finished column is backed by: pushing a present value appends its
/// UTF-8 bytes and the new end offset, pushing a null appends an empty
/// range.
pub struct StringArrayBuilder {
    bytes: Vec<u8>,
    offsets: Vec<usize>,
    validity: Vec<bool>,
}

impl ArrayBuilder for StringArrayBuilder {
    type Array = StringArray;

    closed spec fn inv(&self) -> bool {
        text_wf(self.bytes@, self.offsets@, self.validity@)
    }

    closed spec fn contents(&self) -> Seq<Option<Seq<char>>> {
        text_slots(self.bytes@, self.offsets@, self.validity@)
    }

    fn with_capacity(capacity: usize) -> (r: Self) {
        let mut offsets: Vec<usize> = Vec::new();
        offsets.push(0);
        let r = StringArrayBuilder { bytes: Vec::new(), offsets, validity: Vec::new() };
        proof {
            assert(r.contents() =~= Seq::<Option<Seq<char>>>::empty());
        }
        r
    }

    fn push<'a>(&mut self, value: Option<&'a str>) {
        let ghost pre = *self;
        match value {
            Some(v) => {
                let vb: &[u8] = v.as_bytes();
                self.bytes.extend_from_slice(vb);
                let end = self.bytes.len();
                self.offsets.push(end);
                self.validity.push(true);
                proof {
                    assert(self.bytes@ =~= pre.bytes@ + v.spec_bytes());
                    let k = pre.validity@.len() as int;
                    assert(slot_bytes(self.bytes@, self.offsets@, k) =~= v.spec_bytes());
                    assert forall|i: int| 0 <= i < k implies #[trigger] slot_bytes(
                        self.bytes@,
                        self.offsets@,
                        i,
                    ) == slot_bytes(pre.bytes@, pre.offsets@, i) by {
                        assert(slot_bytes(self.bytes@, self.offsets@, i) =~= slot_bytes(
                            pre.bytes@,
                            pre.offsets@,
                            i,
                        ));
                    }
                    assert(self.contents() =~= pre.contents().push(value.deep_view()));
                }
            }
            None => {
                let end = self.bytes.len();
                self.offsets.push(end);
                self.validity.push(false);
                proof {
                    let k = pre.validity@.len() as int;
                    assert forall|i: int| 0 <= i < k implies #[trigger] slot_bytes(
                        self.bytes@,
                        self.offsets@,
                        i,
                    ) == slot_bytes(pre.bytes@, pre.offsets@, i) by {
                        assert(slot_bytes(self.bytes@, self.offsets@, i) =~= slot_bytes(
                            pre.bytes@,
                            pre.offsets@,
                            i,
                        ));
                    }
                    assert(self.contents() =~= pre.contents().push(None));
                }
            }
        }
    }

    fn finish(self) -> (r: StringArray) {
        StringArray { bytes: self.bytes, offsets: self.offsets, validity: self.validity }
    }

    open spec fn spec_wrap(self) -> ArrayBuilderImpl {
        ArrayBuilderImpl::String(self)
    }

    open spec fn builder_kind() -> ArrayKind {
        ArrayKind::String
    }

    proof fn lemma_builder_wrap(self) {
    }

    proof fn lemma_builder_wrap_injective(self, other: Self) {
    }

    fn erase(self) -> (r: ArrayBuilderImpl) {
        ArrayBuilderImpl::String(self)
    }

    fn try_unwrap(b: ArrayBuilderImpl) -> (r: Result<Self, TypeMismatch>) {
        match b {
            ArrayBuilderImpl::String(c) => Ok(c),
            _ => Err(TypeMismatch(ArrayKind::String, b.tag())),
        }
    }
}

} // verus!
