use vstd::prelude::*;

verus! {

/// The error kinds this layer surfaces to its callers.
///
/// Every kind is handed to the immediate caller unmodified; none is retried
/// or swallowed inside the library.
#[derive(Clone, Copy, Debug, PartialEq, Eq, Structural)]
pub enum DbError {
    /// No connection became available within the pool's wait policy.
    PoolExhausted,
    /// A backend connection could not be established.
    ConnectionError,
    /// A dynamically supplied schema identifier failed the identifier guard.
    InvalidIdentifier,
    /// The backend rejected or failed to execute a statement, or the
    /// statement's placeholders do not match the supplied parameters.
    QueryError,
    /// A row's column value could not be converted to the expected type.
    DecodeError,
}

} // verus!
