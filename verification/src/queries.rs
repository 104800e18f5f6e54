//! The introspection queries and the generic data query, built from the
//! pool, the identifier guard, the query executor and the row mapper. Each
//! operation leases nothing itself: the caller acquires a connection from
//! the pool, and the lease is released when it goes out of scope, whether
//! the query succeeded or failed.

use vstd::prelude::*;

use crate::db;
use crate::db::PgConn;
use crate::errors::DbError;
use crate::ident::{valid_identifier, validate};
use crate::mapper::{
    decode_column_descriptor, decode_person, descriptor_cells_ok, descriptor_matches,
    person_cells_ok, person_matches, ColumnDescriptor, Person,
};
use crate::placeholder::{check_placeholders, placeholders_match};
use crate::row::{cell_text, SqlRow};

verus! {

/// Decodes column 0 of every row as a string. All-or-nothing: one mismatch
/// fails the whole batch with `DecodeError`, and no partial result leaks.
pub fn decode_string_rows(rows: &Vec<SqlRow>) -> (r: Result<Vec<String>, DbError>)
    ensures
        r is Ok <==> (forall|i: int|
            0 <= i < rows@.len() ==> cell_text(#[trigger] rows@[i]@, 0) is Ok),
        r matches Ok(v) ==> v@.len() == rows@.len() && (forall|i: int|
            0 <= i < rows@.len() ==> cell_text(rows@[i]@, 0) == Ok::<Seq<char>, DbError>(
                #[trigger] v@[i]@,
            )),
        r matches Err(e) ==> e == DbError::DecodeError,
{
    let mut out: Vec<String> = Vec::new();
    let n = rows.len();
    for k in 0..n
        invariant
            n == rows@.len(),
            out@.len() == k,
            forall|i: int| 0 <= i < k ==> cell_text(#[trigger] rows@[i]@, 0) is Ok,
            forall|i: int|
                0 <= i < k ==> cell_text(rows@[i]@, 0) == Ok::<Seq<char>, DbError>(
                    #[trigger] out@[i]@,
                ),
    {
        match rows[k].get_text(0) {
            Ok(t) => out.push(t),
            Err(e) => {
                assert(cell_text(rows@[k as int]@, 0) is Err);
                return Err(e);
            },
        }
    }
    Ok(out)
}

/// Decodes every row of the column catalog into a descriptor.
/// All-or-nothing, like every decoder here.
pub fn decode_descriptor_rows(rows: &Vec<SqlRow>) -> (r: Result<Vec<ColumnDescriptor>, DbError>)
    ensures
        r is Ok <==> (forall|i: int|
            0 <= i < rows@.len() ==> descriptor_cells_ok(#[trigger] rows@[i]@)),
        r matches Ok(v) ==> v@.len() == rows@.len() && (forall|i: int|
            0 <= i < rows@.len() ==> descriptor_matches(#[trigger] v@[i], rows@[i]@)),
        r matches Err(e) ==> e == DbError::DecodeError,
{
    let mut out: Vec<ColumnDescriptor> = Vec::new();
    let n = rows.len();
    for k in 0..n
        invariant
            n == rows@.len(),
            out@.len() == k,
            forall|i: int| 0 <= i < k ==> descriptor_cells_ok(#[trigger] rows@[i]@),
            forall|i: int| 0 <= i < k ==> descriptor_matches(#[trigger] out@[i], rows@[i]@),
    {
        match decode_column_descriptor(&rows[k]) {
            Ok(d) => out.push(d),
            Err(e) => {
                assert(!descriptor_cells_ok(rows@[k as int]@));
                return Err(e);
            },
        }
    }
    Ok(out)
}

/// Decodes every row of a people query into a `Person`. All-or-nothing.
pub fn decode_person_rows(rows: &Vec<SqlRow>) -> (r: Result<Vec<Person>, DbError>)
    ensures
        r is Ok <==> (forall|i: int| 0 <= i < rows@.len() ==> person_cells_ok(#[trigger] rows@[i]@)),
        r matches Ok(v) ==> v@.len() == rows@.len() && (forall|i: int|
            0 <= i < rows@.len() ==> person_matches(#[trigger] v@[i], rows@[i]@)),
        r matches Err(e) ==> e == DbError::DecodeError,
{
    let mut out: Vec<Person> = Vec::new();
    let n = rows.len();
    for k in 0..n
        invariant
            n == rows@.len(),
            out@.len() == k,
            forall|i: int| 0 <= i < k ==> person_cells_ok(#[trigger] rows@[i]@),
            forall|i: int| 0 <= i < k ==> person_matches(#[trigger] out@[i], rows@[i]@),
    {
        match decode_person(&rows[k]) {
            Ok(p) => out.push(p),
            Err(e) => {
                assert(!person_cells_ok(rows@[k as int]@));
                return Err(e);
            },
        }
    }
    Ok(out)
}

/// Lists the backend's databases: runs the fixed, parameter-free catalog
/// query and decodes column 0 of every row as a string. What comes back
/// from the backend is decoded by `decode_string_rows`, whose contract is
/// exact; a failed execution surfaces unchanged as `QueryError`.
pub fn query_databases(conn: &mut PgConn) -> (r: Result<Vec<String>, DbError>)
    ensures
        r matches Err(e) ==> e == DbError::QueryError || e == DbError::DecodeError,
{
    match db::query_no_params(conn, "SELECT datname FROM pg_database;") {
        Ok(pg_rows) => {
            let rows = db::convert_rows(&pg_rows);
            decode_string_rows(&rows)
        },
        Err(_) => Err(DbError::QueryError),
    }
}

/// Lists the tables of the user-visible schema: runs the fixed catalog
/// query and decodes column 0 of every row as a string.
pub fn query_tables(conn: &mut PgConn) -> (r: Result<Vec<String>, DbError>)
    ensures
        r matches Err(e) ==> e == DbError::QueryError || e == DbError::DecodeError,
{
    match db::query_no_params(
        conn,
        "SELECT table_name FROM information_schema.tables WHERE table_schema = 'public';",
    ) {
        Ok(pg_rows) => {
            let rows = db::convert_rows(&pg_rows);
            decode_string_rows(&rows)
        },
        Err(_) => Err(DbError::QueryError),
    }
}

/// Lists the columns of one table: the table name must first pass the
/// identifier guard — defense in depth, even though the name is then bound
/// as $1 rather than interpolated — and each catalog row is decoded into a
/// `ColumnDescriptor` (the decoder reads only the first four columns).
pub fn query_columns(conn: &mut PgConn, table_name: &str) -> (r: Result<
    Vec<ColumnDescriptor>,
    DbError,
>)
    ensures
        !valid_identifier(table_name@) ==> r == Err::<Vec<ColumnDescriptor>, DbError>(
            DbError::InvalidIdentifier,
        ),
        r matches Err(e) ==> e == DbError::InvalidIdentifier || e == DbError::QueryError
            || e == DbError::DecodeError,
        valid_identifier(table_name@) && r is Err ==> r->Err_0 == DbError::QueryError
            || r->Err_0 == DbError::DecodeError,
{
    let checked = validate(table_name)?;
    match db::query_one_text(
        conn,
        "SELECT column_name, data_type, character_maximum_length, is_nullable, column_default FROM information_schema.columns WHERE table_schema = 'public' AND table_name = $1;",
        checked,
    ) {
        Ok(pg_rows) => {
            let rows = db::convert_rows(&pg_rows);
            decode_descriptor_rows(&rows)
        },
        Err(_) => Err(DbError::QueryError),
    }
}

/// Runs a caller-supplied SQL template with exactly four values (string,
/// boolean, 8-byte integer, 8-byte integer) bound positionally, in order,
/// and decodes each resulting row as a `Person`. The template is trusted to
/// carry only parameter placeholders, never interpolated identifiers; a
/// template whose placeholders do not reference exactly $1..$4 fails with
/// `QueryError` before any network round-trip.
pub fn query_data(
    conn: &mut PgConn,
    sql: &str,
    name: &str,
    enabled: bool,
    limit: i64,
    offset: i64,
) -> (r: Result<Vec<Person>, DbError>)
    ensures
        !placeholders_match(sql@, 4) ==> r == Err::<Vec<Person>, DbError>(DbError::QueryError),
        r matches Err(e) ==> e == DbError::QueryError || e == DbError::DecodeError,
{
    if !check_placeholders(sql, 4) {
        return Err(DbError::QueryError);
    }
    match db::query_four_params(conn, sql, name, enabled, limit, offset) {
        Ok(pg_rows) => {
            let rows = db::convert_rows(&pg_rows);
            decode_person_rows(&rows)
        },
        Err(_) => Err(DbError::QueryError),
    }
}

} // verus!
