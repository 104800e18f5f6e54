use vstd::prelude::*;

use crate::errors::DbError;
use crate::row::{cell_i64, cell_opt_bool, cell_opt_i32, cell_text, SqlRow, SqlValue};

verus! {

/// One column of a table, as the backend's catalog describes it.
#[derive(Clone, Debug, PartialEq)]
pub struct ColumnDescriptor {
    pub name: String,
    pub data_type: String,
    /// Present only for bounded character types; absent (not zero) for all
    /// other types.
    pub max_length: Option<i32>,
    pub nullable: bool,
}

/// The example entity of the data-query operation.
#[derive(Clone, Debug, PartialEq, Eq)]
pub struct Person {
    pub id: i64,
    pub name: String,
    pub email: String,
    pub enabled: Option<bool>,
}

/// The nullability policy: only the literal marker `"NO"` means
/// not-nullable; any other marker, expected or not, is treated as nullable.
/// This is a deliberate permissive default, not a validation of the marker.
pub open spec fn spec_nullable(marker: Seq<char>) -> bool {
    marker != "NO"@
}

/// Decodes a nullability marker. Only `"NO"` yields `false`.
pub fn nullable_from(marker: &str) -> (r: bool)
    ensures
        r == spec_nullable(marker@),
{
    let owned: String = marker.to_owned();
    let no: String = "NO".to_owned();
    !(owned == no)
}

/// A row of the column catalog holds what a descriptor needs: strings at
/// positions 0 (name), 1 (data type) and 3 (nullability marker). Position 2
/// (length) is read permissively and cannot fail.
pub open spec fn descriptor_cells_ok(s: Seq<SqlValue>) -> bool {
    &&& cell_text(s, 0) is Ok
    &&& cell_text(s, 1) is Ok
    &&& cell_text(s, 3) is Ok
}

/// How a decoded descriptor relates to the row it came from.
pub open spec fn descriptor_matches(d: ColumnDescriptor, s: Seq<SqlValue>) -> bool {
    &&& cell_text(s, 0) == Ok::<Seq<char>, DbError>(d.name@)
    &&& cell_text(s, 1) == Ok::<Seq<char>, DbError>(d.data_type@)
    &&& d.max_length == cell_opt_i32(s, 2)
    &&& cell_text(s, 3) matches Ok(m) && d.nullable == spec_nullable(m)
}

/// Row Mapper for the column catalog: positional reads of column name, data
/// type, maximum character length (permissive: a cell that is not a 4-byte
/// integer yields `None` rather than an error) and nullability (permissive:
/// any marker other than `"NO"` means nullable). A type mismatch on the
/// mandatory string columns fails with `DecodeError`.
pub fn decode_column_descriptor(row: &SqlRow) -> (r: Result<ColumnDescriptor, DbError>)
    ensures
        r is Ok <==> descriptor_cells_ok(row@),
        r matches Ok(d) ==> descriptor_matches(d, row@),
        r matches Err(e) ==> e == DbError::DecodeError,
{
    let name = row.get_text(0)?;
    let data_type = row.get_text(1)?;
    let max_length = row.get_opt_i32(2);
    let marker = row.get_text(3)?;
    let nullable = nullable_from(marker.as_str());
    Ok(ColumnDescriptor { name, data_type, max_length, nullable })
}

/// A row of the people query holds what a `Person` needs: an 8-byte integer
/// at 0, strings at 1 and 2, and a boolean or NULL at 3.
pub open spec fn person_cells_ok(s: Seq<SqlValue>) -> bool {
    &&& cell_i64(s, 0) is Ok
    &&& cell_text(s, 1) is Ok
    &&& cell_text(s, 2) is Ok
    &&& cell_opt_bool(s, 3) is Ok
}

/// How a decoded `Person` relates to the row it came from.
pub open spec fn person_matches(p: Person, s: Seq<SqlValue>) -> bool {
    &&& cell_i64(s, 0) == Ok::<i64, DbError>(p.id)
    &&& cell_text(s, 1) == Ok::<Seq<char>, DbError>(p.name@)
    &&& cell_text(s, 2) == Ok::<Seq<char>, DbError>(p.email@)
    &&& cell_opt_bool(s, 3) == Ok::<Option<bool>, DbError>(p.enabled)
}

/// Row Mapper for `Person`: id, name and email are mandatory, enabled is an
/// optional boolean (SQL NULL is the valid value `None`, not an error). Any
/// type mismatch fails with `DecodeError` and propagates: unlike the
/// permissive fallbacks of the descriptor decoder, these failures are never
/// converted into optional values.
pub fn decode_person(row: &SqlRow) -> (r: Result<Person, DbError>)
    ensures
        r is Ok <==> person_cells_ok(row@),
        r matches Ok(p) ==> person_matches(p, row@),
        r matches Err(e) ==> e == DbError::DecodeError,
{
    let id = row.get_i64(0)?;
    let name = row.get_text(1)?;
    let email = row.get_text(2)?;
    let enabled = row.get_opt_bool(3)?;
    Ok(Person { id, name, email, enabled })
}

} // verus!
