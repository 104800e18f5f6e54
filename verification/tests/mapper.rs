use pgpool::errors::DbError;
use pgpool::mapper::{decode_column_descriptor, decode_person, Person};
use pgpool::row::{SqlRow, SqlValue};

fn catalog_row(name: &str, data_type: &str, length: SqlValue, marker: &str) -> SqlRow {
    SqlRow::new(vec![
        SqlValue::Text(name.to_string()),
        SqlValue::Text(data_type.to_string()),
        length,
        SqlValue::Text(marker.to_string()),
    ])
}

#[test]
fn nullability_no_means_not_nullable() {
    let row = catalog_row("id", "bigint", SqlValue::Null, "NO");
    let d = decode_column_descriptor(&row).unwrap();
    assert!(!d.nullable);
}

#[test]
fn nullability_yes_means_nullable() {
    let row = catalog_row("enabled", "boolean", SqlValue::Null, "YES");
    let d = decode_column_descriptor(&row).unwrap();
    assert!(d.nullable);
}

#[test]
fn nullability_unexpected_marker_means_nullable() {
    let row = catalog_row("enabled", "boolean", SqlValue::Null, "maybe");
    let d = decode_column_descriptor(&row).unwrap();
    assert!(d.nullable);
}

#[test]
fn length_valid_integer_decodes_to_some() {
    let row = catalog_row("name", "character varying", SqlValue::Int4(80), "NO");
    let d = decode_column_descriptor(&row).unwrap();
    assert_eq!(d.max_length, Some(80));
}

#[test]
fn length_null_decodes_to_none_without_raising() {
    let row = catalog_row("id", "bigint", SqlValue::Null, "NO");
    let d = decode_column_descriptor(&row).unwrap();
    assert_eq!(d.max_length, None);
}

#[test]
fn length_non_numeric_decodes_to_none_without_raising() {
    let row = catalog_row("id", "bigint", SqlValue::Text("eighty".to_string()), "NO");
    let d = decode_column_descriptor(&row).unwrap();
    assert_eq!(d.max_length, None);
}

#[test]
fn descriptor_mandatory_string_mismatch_is_an_error() {
    let row = SqlRow::new(vec![
        SqlValue::Int8(1),
        SqlValue::Text("bigint".to_string()),
        SqlValue::Null,
        SqlValue::Text("NO".to_string()),
    ]);
    assert_eq!(decode_column_descriptor(&row), Err(DbError::DecodeError));
}

#[test]
fn person_decodes_with_enabled_present() {
    let row = SqlRow::new(vec![
        SqlValue::Int8(1),
        SqlValue::Text("Daniel".to_string()),
        SqlValue::Text("d@example.com".to_string()),
        SqlValue::Bool(true),
    ]);
    let p = decode_person(&row).unwrap();
    assert_eq!(
        p,
        Person {
            id: 1,
            name: "Daniel".to_string(),
            email: "d@example.com".to_string(),
            enabled: Some(true),
        }
    );
}

#[test]
fn person_decodes_with_enabled_null() {
    let row = SqlRow::new(vec![
        SqlValue::Int8(2),
        SqlValue::Text("A".to_string()),
        SqlValue::Text("a@x.com".to_string()),
        SqlValue::Null,
    ]);
    let p = decode_person(&row).unwrap();
    assert_eq!(p.id, 2);
    assert_eq!(p.enabled, None);
}

#[test]
fn person_id_type_mismatch_propagates() {
    let row = SqlRow::new(vec![
        SqlValue::Text("1".to_string()),
        SqlValue::Text("Daniel".to_string()),
        SqlValue::Text("d@example.com".to_string()),
        SqlValue::Bool(true),
    ]);
    assert_eq!(decode_person(&row), Err(DbError::DecodeError));
}

#[test]
fn person_enabled_type_mismatch_propagates() {
    let row = SqlRow::new(vec![
        SqlValue::Int8(1),
        SqlValue::Text("Daniel".to_string()),
        SqlValue::Text("d@example.com".to_string()),
        SqlValue::Int8(1),
    ]);
    assert_eq!(decode_person(&row), Err(DbError::DecodeError));
}

#[test]
fn person_short_row_is_an_error() {
    let row = SqlRow::new(vec![SqlValue::Int8(1), SqlValue::Text("Daniel".to_string())]);
    assert_eq!(decode_person(&row), Err(DbError::DecodeError));
}
