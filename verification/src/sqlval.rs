//! Plain tagged values exchanged with the database engine.
//!
//! `SqlValue` mirrors the engine's dynamic typing for values read out of a
//! row; a stored real number is carried as its raw IEEE-754 bit pattern.
//! `BindValue` is the subset this layer ever binds as a query parameter.

use vstd::prelude::*;

verus! {

/// One stored value read from a result column.
#[derive(Debug, Clone, PartialEq)]
pub enum SqlValue {
    Null,
    Int(i64),
    /// Raw bits of a stored real number.
    Real(u64),
    Text(String),
    Blob(Vec<u8>),
}

/// One value bound to a `?` placeholder, in placeholder order.
#[derive(Debug, Clone, PartialEq)]
pub enum BindValue {
    Int(i64),
    Text(String),
}

} // verus!
