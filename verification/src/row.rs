use vstd::prelude::*;

use crate::errors::DbError;

verus! {

/// One raw column value as the backend hands it over: a tagged union of the
/// closed set of scalar kinds this layer decodes. `Null` stands for SQL NULL.
#[derive(Clone, Debug, PartialEq)]
pub enum SqlValue {
    Null,
    Int8(i64),
    Int4(i32),
    Text(String),
    Bool(bool),
}

/// A raw result row: an ordered sequence of column values, addressed by
/// position. Decoding is purely positional, so callers must keep the SQL
/// column order and the decode order in lockstep.
#[derive(Clone, Debug, PartialEq)]
pub struct SqlRow {
    pub cells: Vec<SqlValue>,
}

impl View for SqlRow {
    type V = Seq<SqlValue>;

    open spec fn view(&self) -> Seq<SqlValue> {
        self.cells@
    }
}

/// What a mandatory 64-bit integer read of column `i` yields: the value when
/// the cell is present and holds an 8-byte integer, `DecodeError` otherwise.
pub open spec fn cell_i64(s: Seq<SqlValue>, i: int) -> Result<i64, DbError> {
    if 0 <= i < s.len() {
        match s[i] {
            SqlValue::Int8(v) => Ok(v),
            _ => Err(DbError::DecodeError),
        }
    } else {
        Err(DbError::DecodeError)
    }
}

/// What a mandatory string read of column `i` yields.
pub open spec fn cell_text(s: Seq<SqlValue>, i: int) -> Result<Seq<char>, DbError> {
    if 0 <= i < s.len() {
        match s[i] {
            SqlValue::Text(t) => Ok(t@),
            _ => Err(DbError::DecodeError),
        }
    } else {
        Err(DbError::DecodeError)
    }
}

/// What an optional boolean read of column `i` yields: SQL NULL is a valid
/// value (`None`), a type mismatch is an error.
pub open spec fn cell_opt_bool(s: Seq<SqlValue>, i: int) -> Result<Option<bool>, DbError> {
    if 0 <= i < s.len() {
        match s[i] {
            SqlValue::Bool(b) => Ok(Some(b)),
            SqlValue::Null => Ok(None),
            _ => Err(DbError::DecodeError),
        }
    } else {
        Err(DbError::DecodeError)
    }
}

/// What a permissive 32-bit integer read of column `i` yields: any cell that
/// is not a 4-byte integer (NULL, another type, or out of range) decodes to
/// `None` rather than an error. This is a deliberate fallback, used only
/// where the caller treats "absent" and "unreadable" alike.
pub open spec fn cell_opt_i32(s: Seq<SqlValue>, i: int) -> Option<i32> {
    if 0 <= i < s.len() {
        match s[i] {
            SqlValue::Int4(v) => Some(v),
            _ => None,
        }
    } else {
        None
    }
}

impl SqlRow {
    pub fn new(cells: Vec<SqlValue>) -> (r: SqlRow)
        ensures
            r@ == cells@,
    {
        SqlRow { cells }
    }

    pub fn len(&self) -> (n: usize)
        ensures
            n == self@.len(),
    {
        self.cells.len()
    }

    /// Mandatory 64-bit integer column; a mismatch fails with `DecodeError`.
    pub fn get_i64(&self, i: usize) -> (r: Result<i64, DbError>)
        ensures
            r == cell_i64(self@, i as int),
    {
        if i < self.cells.len() {
            match self.cells[i] {
                SqlValue::Int8(v) => Ok(v),
                _ => Err(DbError::DecodeError),
            }
        } else {
            Err(DbError::DecodeError)
        }
    }

    /// Mandatory string column; a mismatch fails with `DecodeError`.
    pub fn get_text(&self, i: usize) -> (r: Result<String, DbError>)
        ensures
            r matches Ok(t) ==> cell_text(self@, i as int) == Ok::<Seq<char>, DbError>(t@),
            r is Err <==> cell_text(self@, i as int) is Err,
            r matches Err(e) ==> e == DbError::DecodeError,
    {
        if i < self.cells.len() {
            match &self.cells[i] {
                SqlValue::Text(t) => Ok(t.clone()),
                _ => Err(DbError::DecodeError),
            }
        } else {
            Err(DbError::DecodeError)
        }
    }

    /// Optional boolean column: NULL is a valid value, a mismatch is an error.
    pub fn get_opt_bool(&self, i: usize) -> (r: Result<Option<bool>, DbError>)
        ensures
            r == cell_opt_bool(self@, i as int),
    {
        if i < self.cells.len() {
            match self.cells[i] {
                SqlValue::Bool(b) => Ok(Some(b)),
                SqlValue::Null => Ok(None),
                _ => Err(DbError::DecodeError),
            }
        } else {
            Err(DbError::DecodeError)
        }
    }

    /// Permissive 32-bit integer column: anything that is not a 4-byte
    /// integer yields `None` instead of raising.
    pub fn get_opt_i32(&self, i: usize) -> (r: Option<i32>)
        ensures
            r == cell_opt_i32(self@, i as int),
    {
        if i < self.cells.len() {
            match self.cells[i] {
                SqlValue::Int4(v) => Some(v),
                _ => None,
            }
        } else {
            None
        }
    }
}

} // verus!
