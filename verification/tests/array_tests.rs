use columnar::TypeMismatch;
use columnar::array::{
    Array, ArrayBuilder, ArrayBuilderImpl, ArrayImpl, ArrayKind, BoolArray, I16Array,
    I16ArrayBuilder, I32Array, I32ArrayBuilder, I64Array, I64ArrayBuilder, StringArray,
    StringArrayBuilder,
};

fn build_i32(slots: &[Option<i32>]) -> I32Array {
    let mut b = I32ArrayBuilder::with_capacity(slots.len());
    for s in slots {
        b.push(*s);
    }
    b.finish()
}

fn build_string(slots: &[Option<&str>]) -> StringArray {
    let mut b = StringArrayBuilder::with_capacity(slots.len());
    for s in slots {
        b.push(*s);
    }
    b.finish()
}

#[test]
fn builder_length_invariant() {
    let slots = [Some(1), None, Some(3), Some(-7), None];
    let a = build_i32(&slots);
    assert_eq!(a.len(), slots.len());
    assert!(!a.is_empty());
    for (i, s) in slots.iter().enumerate() {
        assert_eq!(a.get(i), *s);
    }
}

#[test]
fn empty_builder_yields_empty_array() {
    let b = I32ArrayBuilder::with_capacity(16);
    let a = b.finish();
    assert_eq!(a.len(), 0);
    assert!(a.is_empty());
}

#[test]
fn capacity_hint_has_no_observable_effect() {
    let mut small = I32ArrayBuilder::with_capacity(0);
    let mut large = I32ArrayBuilder::with_capacity(1024);
    for v in [Some(9), None, Some(-1)] {
        small.push(v);
        large.push(v);
    }
    let a = small.finish();
    let b = large.finish();
    assert_eq!(a.len(), b.len());
    for i in 0..a.len() {
        assert_eq!(a.get(i), b.get(i));
    }
}

#[test]
fn string_builder_keeps_push_order() {
    let a = build_string(&[Some("first"), None, Some(""), Some("last")]);
    assert_eq!(a.len(), 4);
    assert_eq!(a.get(0), Some("first"));
    assert_eq!(a.get(1), None);
    assert_eq!(a.get(2), Some(""));
    assert_eq!(a.get(3), Some("last"));
}

#[test]
fn iterator_yields_slots_in_order() {
    let a = build_i32(&[Some(10), None, Some(30)]);
    let mut it = a.iter();
    assert_eq!(it.next(), Some(Some(10)));
    assert_eq!(it.next(), Some(None));
    assert_eq!(it.next(), Some(Some(30)));
    assert_eq!(it.next(), None);
    assert_eq!(it.next(), None);
}

#[test]
fn iterating_twice_yields_identical_sequences() {
    let a = build_string(&[Some("a"), None, Some("bc"), None]);
    let mut first: Vec<Option<String>> = Vec::new();
    let mut it = a.iter();
    while let Some(slot) = it.next() {
        first.push(slot.map(|s| s.to_string()));
    }
    let mut second: Vec<Option<String>> = Vec::new();
    let mut it = a.iter();
    while let Some(slot) = it.next() {
        second.push(slot.map(|s| s.to_string()));
    }
    assert_eq!(first.len(), 4);
    assert_eq!(first, second);
}

#[test]
fn narrowing_matching_kind_round_trips() {
    let a = build_i32(&[Some(1), None]);
    let erased: ArrayImpl = a.erase();
    assert_eq!(erased.tag(), ArrayKind::Int32);
    assert_eq!(erased.len(), 2);
    let back: &I32Array = I32Array::try_narrow(&erased).unwrap();
    assert_eq!(back.len(), 2);
    assert_eq!(back.get(0), Some(1));
    assert_eq!(back.get(1), None);
}

#[test]
fn narrowing_mismatching_kind_names_both_kinds() {
    let a = build_i32(&[Some(1), None, Some(3)]);
    let erased: ArrayImpl = a.erase();
    let r = StringArray::try_narrow(&erased);
    assert!(r.is_err());
    assert_eq!(
        r.err().unwrap(),
        TypeMismatch(ArrayKind::String, ArrayKind::Int32)
    );
    let r = BoolArray::try_narrow(&erased);
    assert_eq!(
        r.err().unwrap(),
        TypeMismatch(ArrayKind::Bool, ArrayKind::Int32)
    );
    let r = I64Array::try_narrow(&erased);
    assert_eq!(
        r.err().unwrap(),
        TypeMismatch(ArrayKind::Int64, ArrayKind::Int32)
    );
}

#[test]
fn builder_narrowing_round_trips() {
    let mut b = I64ArrayBuilder::with_capacity(2);
    b.push(Some(5));
    let erased: ArrayBuilderImpl = b.erase();
    assert_eq!(erased.tag(), ArrayKind::Int64);
    let mut back = I64ArrayBuilder::try_unwrap(erased).unwrap();
    back.push(None);
    let a = back.finish();
    assert_eq!(a.len(), 2);
    assert_eq!(a.get(0), Some(5));
    assert_eq!(a.get(1), None);
}

#[test]
fn builder_narrowing_mismatch_fails() {
    let b = I32ArrayBuilder::with_capacity(0);
    let erased: ArrayBuilderImpl = b.erase();
    let r = StringArrayBuilder::try_unwrap(erased);
    assert_eq!(
        r.err().unwrap(),
        TypeMismatch(ArrayKind::String, ArrayKind::Int32)
    );
}

#[test]
fn bool_array_holds_both_values_and_nulls() {
    let mut b = <BoolArray as Array>::Builder::with_capacity(3);
    b.push(Some(true));
    b.push(None);
    b.push(Some(false));
    let a = b.finish();
    assert_eq!(a.len(), 3);
    assert_eq!(a.get(0), Some(true));
    assert_eq!(a.get(1), None);
    assert_eq!(a.get(2), Some(false));
}

#[test]
fn int16_column_round_trips_through_the_union() {
    let mut b = I16ArrayBuilder::with_capacity(2);
    b.push(Some(-300));
    b.push(None);
    let erased: ArrayImpl = b.finish().erase();
    assert_eq!(erased.tag(), ArrayKind::Int16);
    let back: &I16Array = I16Array::try_narrow(&erased).unwrap();
    assert_eq!(back.get(0), Some(-300));
    assert_eq!(back.get(1), None);
    assert_eq!(
        I32Array::try_narrow(&erased).err().unwrap(),
        TypeMismatch(ArrayKind::Int32, ArrayKind::Int16)
    );
}

#[test]
fn owned_narrowing_consumes_the_wrapper() {
    let a = build_i32(&[Some(4), None]);
    let erased: ArrayImpl = a.erase();
    let back: I32Array = I32Array::try_unwrap(erased).unwrap();
    assert_eq!(back.get(0), Some(4));
    let erased = build_i32(&[Some(4)]).erase();
    assert_eq!(
        <I64Array as Array>::try_unwrap(erased).err().unwrap(),
        TypeMismatch(ArrayKind::Int64, ArrayKind::Int32)
    );
}

#[test]
fn text_column_handles_multibyte_values() {
    let a = build_string(&[Some("na\u{ef}ve"), Some("\u{65e5}\u{672c}"), None, Some("mix\u{e9}d")]);
    assert_eq!(a.len(), 4);
    assert_eq!(a.get(0), Some("na\u{ef}ve"));
    assert_eq!(a.get(1), Some("\u{65e5}\u{672c}"));
    assert_eq!(a.get(2), None);
    assert_eq!(a.get(3), Some("mix\u{e9}d"));
}
