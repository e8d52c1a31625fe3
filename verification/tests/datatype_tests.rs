use columnar::array::ArrayKind;
use columnar::datatype::DataType;

#[test]
fn every_logical_kind_maps_to_one_physical_kind() {
    assert_eq!(DataType::SmallInt.physical_kind(), ArrayKind::Int16);
    assert_eq!(DataType::Integer.physical_kind(), ArrayKind::Int32);
    assert_eq!(DataType::BigInt.physical_kind(), ArrayKind::Int64);
    assert_eq!(DataType::Varchar.physical_kind(), ArrayKind::String);
    assert_eq!(DataType::Char { width: 8 }.physical_kind(), ArrayKind::String);
    assert_eq!(DataType::Boolean.physical_kind(), ArrayKind::Bool);
    assert_eq!(DataType::Real.physical_kind(), ArrayKind::Float32);
    assert_eq!(DataType::Double.physical_kind(), ArrayKind::Float64);
    assert_eq!(
        DataType::Decimal { scale: 2, precision: 10 }.physical_kind(),
        ArrayKind::Decimal
    );
}

#[test]
fn parameterized_logical_types_share_their_physical_kind() {
    assert_eq!(
        DataType::Char { width: 1 }.physical_kind(),
        DataType::Char { width: 255 }.physical_kind()
    );
    assert_eq!(
        DataType::Char { width: 4 }.physical_kind(),
        DataType::Varchar.physical_kind()
    );
}
