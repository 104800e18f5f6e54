use pgpool::errors::DbError;
use pgpool::queries::{decode_descriptor_rows, decode_person_rows, decode_string_rows};
use pgpool::row::{SqlRow, SqlValue};

fn text_row(s: &str) -> SqlRow {
    SqlRow::new(vec![SqlValue::Text(s.to_string())])
}

fn catalog_row(name: &str, data_type: &str, length: SqlValue, marker: &str) -> SqlRow {
    SqlRow::new(vec![
        SqlValue::Text(name.to_string()),
        SqlValue::Text(data_type.to_string()),
        length,
        SqlValue::Text(marker.to_string()),
    ])
}

#[test]
fn single_table_schema_lists_one_name() {
    let rows = vec![text_row("people")];
    assert_eq!(decode_string_rows(&rows), Ok(vec!["people".to_string()]));
}

#[test]
fn empty_result_decodes_to_empty_list() {
    let rows: Vec<SqlRow> = Vec::new();
    assert_eq!(decode_string_rows(&rows), Ok(Vec::new()));
}

#[test]
fn string_rows_are_all_or_nothing() {
    let rows = vec![text_row("people"), SqlRow::new(vec![SqlValue::Int8(3)])];
    assert_eq!(decode_string_rows(&rows), Err(DbError::DecodeError));
}

#[test]
fn people_table_descriptors_match_schema() {
    let rows = vec![
        catalog_row("id", "bigint", SqlValue::Null, "NO"),
        catalog_row("name", "character varying", SqlValue::Int4(80), "NO"),
        catalog_row("email", "character varying", SqlValue::Int4(128), "NO"),
        catalog_row("enabled", "boolean", SqlValue::Null, "YES"),
    ];
    let ds = decode_descriptor_rows(&rows).unwrap();
    assert_eq!(ds.len(), 4);
    let names: Vec<&str> = ds.iter().map(|d| d.name.as_str()).collect();
    assert_eq!(names, vec!["id", "name", "email", "enabled"]);
    let nullable: Vec<bool> = ds.iter().map(|d| d.nullable).collect();
    assert_eq!(nullable, vec![false, false, false, true]);
    assert_eq!(ds[1].max_length, Some(80));
    assert_eq!(ds[3].max_length, None);
}

#[test]
fn person_rows_decode_in_order() {
    let rows = vec![
        SqlRow::new(vec![
            SqlValue::Int8(1),
            SqlValue::Text("Daniel".to_string()),
            SqlValue::Text("d@example.com".to_string()),
            SqlValue::Bool(true),
        ]),
        SqlRow::new(vec![
            SqlValue::Int8(2),
            SqlValue::Text("A".to_string()),
            SqlValue::Text("a@x.com".to_string()),
            SqlValue::Null,
        ]),
    ];
    let people = decode_person_rows(&rows).unwrap();
    assert_eq!(people.len(), 2);
    assert_eq!(people[0].id, 1);
    assert_eq!(people[0].enabled, Some(true));
    assert_eq!(people[1].name, "A");
    assert_eq!(people[1].enabled, None);
}

#[test]
fn person_rows_are_all_or_nothing() {
    let rows = vec![
        SqlRow::new(vec![
            SqlValue::Int8(1),
            SqlValue::Text("Daniel".to_string()),
            SqlValue::Text("d@example.com".to_string()),
            SqlValue::Bool(true),
        ]),
        SqlRow::new(vec![SqlValue::Text("broken".to_string())]),
    ];
    assert_eq!(decode_person_rows(&rows), Err(DbError::DecodeError));
}
