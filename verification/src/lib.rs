//! Read-only query service over a local SQLite database of football teams,
//! games and statistics.
//!
//! The library composes filtered `SELECT` statements from optional query
//! parameters, decodes result rows into typed records, and offers a
//! human-readable connectivity health check.  The database engine itself is
//! reached only through a handful of trusted wrappers; everything around
//! those calls — clause composition, parameter binding order, row decoding,
//! filter semantics, message formatting — is verified.

pub mod compose;
pub mod db;
pub mod filter;
pub mod queries;
pub mod records;
pub mod rowmap;
pub mod sqlval;
pub mod textnum;
