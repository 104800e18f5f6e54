//! A pooled relational-database access layer: a bounded pool of reusable
//! backend connections, an allow-list guard for schema identifiers that are
//! interpolated into SQL text, a positional row model with type-checked
//! accessors, decoders for catalog and entity rows, and the canned
//! introspection queries built on top of them.

pub mod db;
pub mod errors;
pub mod ident;
pub mod mapper;
pub mod placeholder;
pub mod pool;
pub mod queries;
pub mod row;
