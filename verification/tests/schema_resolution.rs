use sas_bridge::errors::ErrorCode;
use sas_bridge::scalar::{SemanticType, TimeUnit};
use sas_bridge::schema::{
    ColumnDescriptor, PhysicalType, RawField, RawSchemaRoot, map_physical, resolve,
};

fn field(name: &str, dtype: PhysicalType) -> RawField {
    RawField { name: name.to_string(), dtype }
}

#[test]
fn physical_to_semantic_mapping_table() {
    assert_eq!(map_physical(PhysicalType::Utf8), Some(SemanticType::Text));
    assert_eq!(map_physical(PhysicalType::LargeUtf8), Some(SemanticType::Text));
    assert_eq!(map_physical(PhysicalType::Int64), Some(SemanticType::Int64));
    assert_eq!(map_physical(PhysicalType::Float64), Some(SemanticType::Float64));
    assert_eq!(map_physical(PhysicalType::Date32), Some(SemanticType::Date));
    assert_eq!(
        map_physical(PhysicalType::Time64(TimeUnit::Microsecond)),
        Some(SemanticType::Time(TimeUnit::Nanosecond))
    );
    assert_eq!(map_physical(PhysicalType::Other), None);
}

#[test]
fn second_resolution_timestamps_are_upgraded_to_millisecond() {
    assert_eq!(
        map_physical(PhysicalType::Timestamp(TimeUnit::Second)),
        Some(SemanticType::DateTime(TimeUnit::Millisecond))
    );
    assert_eq!(
        map_physical(PhysicalType::Timestamp(TimeUnit::Millisecond)),
        Some(SemanticType::DateTime(TimeUnit::Millisecond))
    );
    assert_eq!(
        map_physical(PhysicalType::Timestamp(TimeUnit::Microsecond)),
        Some(SemanticType::DateTime(TimeUnit::Microsecond))
    );
    assert_eq!(
        map_physical(PhysicalType::Timestamp(TimeUnit::Nanosecond)),
        Some(SemanticType::DateTime(TimeUnit::Nanosecond))
    );
}

#[test]
fn resolve_keeps_source_order_and_marks_all_nullable() {
    let raw = RawSchemaRoot::Record(vec![
        field("zeta", PhysicalType::Float64),
        field("alpha", PhysicalType::Utf8),
        field("when", PhysicalType::Timestamp(TimeUnit::Second)),
    ]);
    let s = resolve(&raw, 12, 3).unwrap();
    assert_eq!(s.row_count, 12);
    assert_eq!(s.batch_count, 3);
    assert_eq!(
        s.columns,
        vec![
            ColumnDescriptor {
                name: "zeta".to_string(),
                semantic_type: SemanticType::Float64,
                nullable: true,
            },
            ColumnDescriptor {
                name: "alpha".to_string(),
                semantic_type: SemanticType::Text,
                nullable: true,
            },
            ColumnDescriptor {
                name: "when".to_string(),
                semantic_type: SemanticType::DateTime(TimeUnit::Millisecond),
                nullable: true,
            },
        ]
    );
}

#[test]
fn resolve_rejects_an_unsupported_field_naming_it() {
    let raw = RawSchemaRoot::Record(vec![
        field("ok_col", PhysicalType::Utf8),
        field("bad_col", PhysicalType::Other),
    ]);
    let e = resolve(&raw, 0, 0).unwrap_err();
    assert_eq!(e.code, ErrorCode::UnsupportedType);
    assert_eq!(e.message, "Unsupported data type: bad_col");
}

#[test]
fn resolve_rejects_a_non_struct_root() {
    let e = resolve(&RawSchemaRoot::Other, 0, 0).unwrap_err();
    assert_eq!(e.code, ErrorCode::UnsupportedType);
    assert_eq!(e.message, "Unsupported data type: expected a struct-typed schema root");
}
