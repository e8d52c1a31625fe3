use columnar::TypeMismatch;
use columnar::array::ArrayKind;
use columnar::scalar::{Scalar, ScalarImpl, ScalarRef, ScalarRefImpl};

#[test]
fn round_trip_i32() {
    let v: i32 = 42;
    assert_eq!(v.as_scalar_ref().to_owned_scalar(), v);
    let w: i32 = -2147483648;
    assert_eq!(w.as_scalar_ref().to_owned_scalar(), w);
}

#[test]
fn round_trip_i16() {
    let v: i16 = -300;
    assert_eq!(v.as_scalar_ref().to_owned_scalar(), v);
}

#[test]
fn round_trip_i64() {
    let v: i64 = 1 << 40;
    assert_eq!(v.as_scalar_ref().to_owned_scalar(), v);
}

#[test]
fn round_trip_bool() {
    assert_eq!(true.as_scalar_ref().to_owned_scalar(), true);
    assert_eq!(false.as_scalar_ref().to_owned_scalar(), false);
}

#[test]
fn round_trip_string() {
    let v: String = String::from("hello world");
    assert_eq!(v.as_scalar_ref().to_owned_scalar(), v);
    let empty: String = String::new();
    assert_eq!(empty.as_scalar_ref().to_owned_scalar(), empty);
}

#[test]
fn scalar_erase_tags_kind() {
    assert_eq!(<i16 as Scalar>::erase(7).tag(), ArrayKind::Int16);
    assert_eq!(<i32 as Scalar>::erase(7).tag(), ArrayKind::Int32);
    assert_eq!(<i64 as Scalar>::erase(7).tag(), ArrayKind::Int64);
    assert_eq!(<bool as Scalar>::erase(true).tag(), ArrayKind::Bool);
    assert_eq!(String::from("x").erase().tag(), ArrayKind::String);
}

#[test]
fn scalar_narrow_matching_kind_succeeds() {
    let erased = <i32 as Scalar>::erase(7);
    assert_eq!(<i32 as Scalar>::try_unwrap(erased), Ok(7i32));
    let erased = String::from("abc").erase();
    assert_eq!(String::try_unwrap(erased), Ok(String::from("abc")));
}

#[test]
fn scalar_narrow_mismatching_kind_fails() {
    let erased = <i32 as Scalar>::erase(7);
    assert_eq!(
        <i64 as Scalar>::try_unwrap(erased),
        Err(TypeMismatch(ArrayKind::Int64, ArrayKind::Int32))
    );
    let erased = <bool as Scalar>::erase(true);
    assert_eq!(
        String::try_unwrap(erased),
        Err(TypeMismatch(ArrayKind::String, ArrayKind::Bool))
    );
}

#[test]
fn scalar_ref_erase_and_narrow() {
    let s = String::from("xyz");
    let r: &str = s.as_scalar_ref();
    let erased: ScalarRefImpl = r.erase();
    assert_eq!(erased.tag(), ArrayKind::String);
    assert_eq!(<&str>::try_unwrap(erased), Ok("xyz"));

    let erased: ScalarRefImpl = <i32 as ScalarRef>::erase(5);
    assert_eq!(
        <&str>::try_unwrap(erased),
        Err(TypeMismatch(ArrayKind::String, ArrayKind::Int32))
    );
    let erased: ScalarRefImpl = <i32 as ScalarRef>::erase(5);
    assert_eq!(<i32 as ScalarRef>::try_unwrap(erased), Ok(5i32));
}

#[test]
fn scalar_impl_holds_each_variant() {
    assert_eq!(ScalarImpl::Int32(1).tag(), ArrayKind::Int32);
    assert_eq!(ScalarImpl::Int64(1).tag(), ArrayKind::Int64);
    assert_eq!(ScalarImpl::Bool(true).tag(), ArrayKind::Bool);
    assert_eq!(ScalarImpl::String(String::new()).tag(), ArrayKind::String);
    assert_eq!(ScalarRefImpl::Int64(3).tag(), ArrayKind::Int64);
    assert_eq!(ScalarRefImpl::Bool(false).tag(), ArrayKind::Bool);
}
