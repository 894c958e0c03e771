//! The trusted boundary to the storage engine.
//!
//! Everything in this module is believed, not proved: each item makes one
//! outside call (or converts one outside value) and states no more of it than
//! the engine's own documentation gives.  What comes back depends on the file
//! system and on what is stored, so the wrappers promise nothing of their
//! results; the verified callers state what holds whatever came back.

use vstd::prelude::*;

use crate::sqlval::{BindValue, SqlValue};

verus! {

/// The engine's connection handle, held opaquely.
#[verifier::external_type_specification]
#[verifier::external_body]
pub struct ExConnection(rusqlite::Connection);

/// An owned engine value, as handed to the engine when binding a parameter.
#[verifier::external_type_specification]
#[verifier::external_body]
pub struct ExValue(rusqlite::types::Value);

/// A borrowed engine value, as read from a result column.
#[verifier::external_type_specification]
#[verifier::external_body]
pub struct ExValueRef<'a>(rusqlite::types::ValueRef<'a>);

/// Relies on std::path::Path::exists: whether a file is present at `path`
/// right now.  Nothing is promised: the answer depends on the file system.
#[verifier::external_body]
pub(crate) fn file_exists(path: &str) -> bool {
    std::path::Path::new(path).exists()
}

/// Relies on rusqlite::Connection::open: opens the database file at `path`.
/// Nothing is promised of the outcome, which depends on the file system and
/// the engine; a failure carries the engine's error text.
#[verifier::external_body]
pub(crate) fn open_connection(path: &str) -> Result<rusqlite::Connection, String> {
    match rusqlite::Connection::open(path) {
        Ok(c) => Ok(c),
        Err(e) => Err(e.to_string()),
    }
}

/// Relies on rusqlite::types::Value: carries one bound parameter to the
/// engine as the matching SQL value.
#[verifier::external_body]
fn engine_value(v: &BindValue) -> rusqlite::types::Value {
    match v {
        BindValue::Int(i) => rusqlite::types::Value::Integer(*i),
        BindValue::Text(s) => rusqlite::types::Value::Text(s.clone()),
    }
}

/// Relies on rusqlite::types::ValueRef: reads one result column out as a
/// plain tagged value, one arm per engine kind; a stored real number is
/// carried as its raw IEEE-754 bits.  Stored text that is not valid UTF-8
/// (which the engine's own text accessor would refuse) is carried as a blob
/// of its bytes, which no text column accepts, so it surfaces as a
/// row-decode failure rather than as silently repaired text.
#[verifier::external_body]
fn plain_value(v: rusqlite::types::ValueRef<'_>) -> SqlValue {
    match v {
        rusqlite::types::ValueRef::Null => SqlValue::Null,
        rusqlite::types::ValueRef::Integer(i) => SqlValue::Int(i),
        rusqlite::types::ValueRef::Real(x) => SqlValue::Real(x.to_bits()),
        rusqlite::types::ValueRef::Text(t) => match core::str::from_utf8(t) {
            Ok(s) => SqlValue::Text(s.to_owned()),
            Err(_) => SqlValue::Blob(t.to_vec()),
        },
        rusqlite::types::ValueRef::Blob(b) => SqlValue::Blob(b.to_vec()),
    }
}

/// Relies on rusqlite's Connection::prepare, Statement::query and
/// Row::get_ref: prepares `sql`, binds `params` in placeholder order, runs
/// the statement, and hands every result row back as owned column values in
/// result order.  Nothing is promised of the rows, which depend on what is
/// stored; any engine failure surfaces as the engine's error text.
#[verifier::external_body]
pub(crate) fn run_query(
    conn: &rusqlite::Connection,
    sql: &String,
    params: &Vec<BindValue>,
) -> Result<Vec<Vec<SqlValue>>, String> {
    let mut stmt = conn.prepare(sql).map_err(|e| e.to_string())?;
    let n = stmt.column_count();
    let vals: Vec<rusqlite::types::Value> = params.iter().map(engine_value).collect();
    let mut rows = stmt.query(rusqlite::params_from_iter(vals)).map_err(|e| e.to_string())?;
    let mut out: Vec<Vec<SqlValue>> = Vec::new();
    while let Some(row) = rows.next().map_err(|e| e.to_string())? {
        let mut cols: Vec<SqlValue> = Vec::new();
        for i in 0..n {
            cols.push(plain_value(row.get_ref(i).map_err(|e| e.to_string())?));
        }
        out.push(cols);
    }
    Ok(out)
}

} // verus!
