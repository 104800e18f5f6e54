//! The trusted boundary to the backend driver: declarations of the driver's
//! types, opaque holders for the pool manager's types (whose own trait
//! bounds Verus refuses to declare directly), and thin wrappers around the
//! calls this library makes into them. Verus believes the contracts stated
//! here; every other function of the library is verified against them.

use vstd::prelude::*;

use crate::row::SqlValue;

verus! {

#[verifier::external_type_specification]
#[verifier::external_body]
pub struct ExPgConfig(postgres::Config);

#[verifier::external_type_specification]
#[verifier::external_body]
pub struct ExPgError(postgres::Error);

#[verifier::external_type_specification]
#[verifier::external_body]
pub struct ExPgRow(postgres::Row);

#[verifier::external_type_specification]
#[verifier::external_body]
pub struct ExR2d2Error(r2d2::Error);

/// The bounded set of live backend connections, held by the pool manager.
/// The manager's pool type carries a trait bound that Verus refuses in a
/// type declaration, so the collection sits in an opaque field instead.
#[verifier::external_body]
pub struct PgPool {
    inner: r2d2::Pool<r2d2_postgres::PostgresConnectionManager<postgres::NoTls>>,
}

/// An exclusive lease of one backend connection. Dropping it returns the
/// connection to the pool's idle set, on every exit path; the same trait
/// bound keeps the lease type behind an opaque field.
#[verifier::external_body]
pub struct PgConn {
    inner: r2d2::PooledConnection<r2d2_postgres::PostgresConnectionManager<postgres::NoTls>>,
}

/// Relies on r2d2_postgres::PostgresConnectionManager::new and
/// r2d2::Builder::max_size / build: builds a pool of at most `capacity`
/// live plain-TCP connections to the backend that `config` names.
/// `max_size` panics on zero, so a positive capacity is required.
#[verifier::external_body]
pub fn build_pool(config: postgres::Config, capacity: u32) -> (r: Result<PgPool, r2d2::Error>)
    requires
        capacity > 0,
{
    let manager = r2d2_postgres::PostgresConnectionManager::new(config, postgres::NoTls);
    match r2d2::Pool::builder().max_size(capacity).build(manager) {
        Ok(inner) => Ok(PgPool { inner }),
        Err(e) => Err(e),
    }
}

/// Relies on r2d2::Pool::get: leases a connection, waiting for at most the
/// pool's configured timeout; fails when none became available in time.
#[verifier::external_body]
pub fn pool_get(pool: &PgPool) -> (r: Result<PgConn, r2d2::Error>) {
    match pool.inner.get() {
        Ok(inner) => Ok(PgConn { inner }),
        Err(e) => Err(e),
    }
}

/// Relies on postgres::Client::query through the leased connection: sends
/// `sql` with no bound parameters and returns all resulting rows.
#[verifier::external_body]
pub fn query_no_params(conn: &mut PgConn, sql: &str) -> (r: Result<
    Vec<postgres::Row>,
    postgres::Error,
>) {
    conn.inner.query(sql, &[])
}

/// Relies on postgres::Client::query: sends `sql` with one string value
/// bound positionally as $1, never concatenated into the SQL text.
#[verifier::external_body]
pub fn query_one_text(conn: &mut PgConn, sql: &str, p1: &str) -> (r: Result<
    Vec<postgres::Row>,
    postgres::Error,
>) {
    conn.inner.query(sql, &[&p1])
}

/// Relies on postgres::Client::query: sends `sql` with the four values
/// bound positionally, in order, as $1..$4.
#[verifier::external_body]
pub fn query_four_params(
    conn: &mut PgConn,
    sql: &str,
    p1: &str,
    p2: bool,
    p3: i64,
    p4: i64,
) -> (r: Result<Vec<postgres::Row>, postgres::Error>) {
    conn.inner.query(sql, &[&p1, &p2, &p3, &p4])
}

/// What a materialized driver row holds, read into the row model: one cell
/// per column, each the scalar kind its wire type selects (`Null` for SQL
/// NULL and for kinds outside the closed set). A row carries its column
/// metadata and body bytes with it, so its cells are a function of the row
/// value alone; the two wrappers below say how they read this sequence.
pub uninterp spec fn row_cells(row: postgres::Row) -> Seq<SqlValue>;

/// Relies on postgres::Row::len: the number of columns in the row, one cell
/// each.
#[verifier::external_body]
pub fn pg_row_len(row: &postgres::Row) -> (n: usize)
    ensures
        n == row_cells(*row).len(),
{
    row.len()
}

/// Relies on postgres::Row::try_get: reads column `i` as each scalar kind
/// of the row model in turn. The driver checks the column's wire type, so
/// at most one kind succeeds; SQL NULL, an index out of range, and any type
/// outside the closed set all come back as `Null`.
#[verifier::external_body]
pub fn pg_cell(row: &postgres::Row, i: usize) -> (r: SqlValue)
    ensures
        r == if i < row_cells(*row).len() {
            row_cells(*row)[i as int]
        } else {
            SqlValue::Null
        },
{
    if let Ok(Some(v)) = row.try_get::<usize, Option<i64>>(i) {
        return SqlValue::Int8(v);
    }
    if let Ok(Some(v)) = row.try_get::<usize, Option<i32>>(i) {
        return SqlValue::Int4(v);
    }
    if let Ok(Some(v)) = row.try_get::<usize, Option<bool>>(i) {
        return SqlValue::Bool(v);
    }
    if let Ok(Some(v)) = row.try_get::<usize, Option<String>>(i) {
        return SqlValue::Text(v);
    }
    SqlValue::Null
}

/// Materializes a query result into the library's row model, cell by cell:
/// each model row holds exactly the cells of the driver row it came from.
pub fn convert_rows(pg_rows: &Vec<postgres::Row>) -> (r: Vec<crate::row::SqlRow>)
    ensures
        r@.len() == pg_rows@.len(),
        forall|k: int| 0 <= k < pg_rows@.len() ==> #[trigger] r@[k]@ == row_cells(pg_rows@[k]),
{
    let mut out: Vec<crate::row::SqlRow> = Vec::new();
    let n = pg_rows.len();
    for k in 0..n
        invariant
            out@.len() == k,
            n == pg_rows@.len(),
            forall|t: int| 0 <= t < k ==> #[trigger] out@[t]@ == row_cells(pg_rows@[t]),
    {
        let m = pg_row_len(&pg_rows[k]);
        let mut cells: Vec<SqlValue> = Vec::new();
        for j in 0..m
            invariant
                cells@.len() == j,
                k < pg_rows@.len(),
                m == row_cells(pg_rows@[k as int]).len(),
                forall|t: int| 0 <= t < j ==> cells@[t] == row_cells(pg_rows@[k as int])[t],
        {
            cells.push(pg_cell(&pg_rows[k], j));
        }
        proof {
            assert(cells@ =~= row_cells(pg_rows@[k as int]));
        }
        out.push(crate::row::SqlRow::new(cells));
    }
    out
}

} // verus!
