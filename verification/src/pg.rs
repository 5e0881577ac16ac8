//! The trusted boundary to the PostgreSQL driver: the connection and row
//! types declared opaquely, and one wrapper per driver call the library
//! makes. Statements are complete SQL texts; values reach them through
//! the verified quoting in `text`. What a query returns depends on the
//! database, so no wrapper promises more than the shape of its result.

use std::io::Write;
use vstd::prelude::*;

verus! {

use crate::error::DatabaseError;

#[verifier::external_type_specification]
#[verifier::external_body]
pub struct ExPgClient(postgres::Client);

#[verifier::external_type_specification]
#[verifier::external_body]
pub struct ExPgRow(postgres::Row);

/// Relies on `postgres::Client::execute` with no parameters: runs one
/// statement and reports the affected row count, or the driver's error as
/// text.
#[verifier::external_body]
pub fn execute(client: &mut postgres::Client, sql: &str) -> (r: Result<u64, DatabaseError>) {
    match client.execute(sql, &[]) {
        Ok(n) => Ok(n),
        Err(e) => Err(DatabaseError { msg: format!("{}", e) }),
    }
}

/// Relies on `postgres::Client::query` with no parameters: runs one query
/// and hands its rows back, or the driver's error as text.
#[verifier::external_body]
pub fn query(client: &mut postgres::Client, sql: &str) -> (r: Result<
    Vec<postgres::Row>,
    DatabaseError,
>) {
    match client.query(sql, &[]) {
        Ok(rows) => Ok(rows),
        Err(e) => Err(DatabaseError { msg: format!("{}", e) }),
    }
}

/// Relies on `postgres::Client::query_one` with no parameters: runs a
/// query expected to yield exactly one row, or the driver's error as
/// text.
#[verifier::external_body]
pub fn query_one(client: &mut postgres::Client, sql: &str) -> (r: Result<
    postgres::Row,
    DatabaseError,
>) {
    match client.query_one(sql, &[]) {
        Ok(row) => Ok(row),
        Err(e) => Err(DatabaseError { msg: format!("{}", e) }),
    }
}

/// Relies on `postgres::Client::copy_in` and the writer's `finish`: sends
/// `data` down a COPY channel and reports the stored row count, or the
/// failure as text.
#[verifier::external_body]
pub fn copy_in(client: &mut postgres::Client, sql: &str, data: &Vec<u8>) -> (r: Result<
    u64,
    DatabaseError,
>) {
    let mut writer = match client.copy_in(sql) {
        Ok(w) => w,
        Err(e) => return Err(DatabaseError { msg: format!("{}", e) }),
    };
    if let Err(e) = writer.write_all(data) {
        return Err(DatabaseError { msg: format!("{}", e) });
    }
    writer.finish().map_err(|e| DatabaseError { msg: format!("{}", e) })
}

/// Relies on `postgres::Row::try_get::<usize, i32>`.
#[verifier::external_body]
pub fn row_i32(row: &postgres::Row, idx: usize) -> (r: Result<i32, DatabaseError>) {
    row.try_get::<usize, i32>(idx).map_err(|e| DatabaseError { msg: format!("{}", e) })
}

/// Relies on `postgres::Row::try_get::<usize, Option<i32>>`.
#[verifier::external_body]
pub fn row_opt_i32(row: &postgres::Row, idx: usize) -> (r: Result<Option<i32>, DatabaseError>) {
    row.try_get::<usize, Option<i32>>(idx).map_err(|e| DatabaseError { msg: format!("{}", e) })
}

/// Relies on `postgres::Row::try_get::<usize, String>`.
#[verifier::external_body]
pub fn row_string(row: &postgres::Row, idx: usize) -> (r: Result<String, DatabaseError>) {
    row.try_get::<usize, String>(idx).map_err(|e| DatabaseError { msg: format!("{}", e) })
}

/// Relies on `postgres::Row::try_get::<usize, Option<String>>`.
#[verifier::external_body]
pub fn row_opt_string(row: &postgres::Row, idx: usize) -> (r: Result<
    Option<String>,
    DatabaseError,
>) {
    row.try_get::<usize, Option<String>>(idx).map_err(
        |e| DatabaseError { msg: format!("{}", e) },
    )
}

/// Relies on `postgres::Row::try_get::<usize, bool>`.
#[verifier::external_body]
pub fn row_bool(row: &postgres::Row, idx: usize) -> (r: Result<bool, DatabaseError>) {
    row.try_get::<usize, bool>(idx).map_err(|e| DatabaseError { msg: format!("{}", e) })
}

} // verus!
