//! The storage engine: the types of `rusqlite` that the store holds and the
//! calls that it makes into it. Nothing in this file is proved; each item
//! says what it takes for granted. What comes back from the engine depends on
//! what the database holds, so the calls promise nothing about it. Only the
//! cell that stands for a value of the engine depends on that value alone,
//! and has a name.

use crate::error::Failure;
use crate::safety::harmless;
use crate::value::{Cell, Real};
use vstd::prelude::*;

verus! {

/// A connection to a SQLite database.
#[verifier::external_type_specification]
#[verifier::external_body]
pub struct ExConnection(rusqlite::Connection);

/// An error of `rusqlite`.
#[verifier::external_type_specification]
#[verifier::external_body]
pub struct ExSqlError(rusqlite::Error);

/// A value as `rusqlite` hands it to and takes it from SQLite.
#[verifier::external_type_specification]
#[verifier::external_body]
pub struct ExSqlValue(rusqlite::types::Value);

/// A prepared statement.
#[verifier::external_type_specification]
#[verifier::external_body]
pub struct ExStatement<'conn>(rusqlite::Statement<'conn>);

/// The rows that a query gives, one after the other.
#[verifier::external_type_specification]
#[verifier::external_body]
pub struct ExRows<'stmt>(rusqlite::Rows<'stmt>);

/// One row of a query's result.
#[verifier::external_type_specification]
#[verifier::external_body]
pub struct ExRow<'stmt>(rusqlite::Row<'stmt>);

/// `Clone` of `rusqlite::types::Value`, which the crate derives: the copy is
/// the same value.
pub assume_specification[ <rusqlite::types::Value as Clone>::clone ](
    value: &rusqlite::types::Value,
) -> (copy: rusqlite::types::Value)
    ensures
        copy == *value,
;

/// `rusqlite::Connection::open`: opens the database at `path`, or fails.
#[verifier::external_body]
pub(crate) fn open(path: &str) -> Result<rusqlite::Connection, rusqlite::Error> {
    rusqlite::Connection::open(path)
}

/// `rusqlite::Connection::execute`, with the parameters bound in order by
/// `rusqlite::params_from_iter`: runs one statement that gives no rows and
/// returns how many rows it changed, or fails. The store hands it harmless
/// text only.
#[verifier::external_body]
pub(crate) fn execute(
    connection: &rusqlite::Connection,
    text: &str,
    parameters: Vec<rusqlite::types::Value>,
) -> Result<usize, rusqlite::Error>
    requires
        harmless(text@),
{
    connection.execute(text, rusqlite::params_from_iter(parameters))
}

/// `rusqlite::Connection::last_insert_rowid`: the row number of the latest
/// insertion on this connection.
#[verifier::external_body]
pub(crate) fn last_insert_rowid(connection: &rusqlite::Connection) -> i64 {
    connection.last_insert_rowid()
}

/// `rusqlite::Connection::prepare`: compiles one statement, or fails. The
/// store hands it harmless text only.
#[verifier::external_body]
pub(crate) fn prepare<'conn>(connection: &'conn rusqlite::Connection, text: &str) -> Result<
    rusqlite::Statement<'conn>,
    rusqlite::Error,
>
    requires
        harmless(text@),
{
    connection.prepare(text)
}

/// `rusqlite::Statement::query`, with the parameters bound in order by
/// `rusqlite::params_from_iter`: starts a query, or fails.
#[verifier::external_body]
pub(crate) fn query<'stmt, 'conn>(
    statement: &'stmt mut rusqlite::Statement<'conn>,
    parameters: Vec<rusqlite::types::Value>,
) -> Result<rusqlite::Rows<'stmt>, rusqlite::Error> {
    statement.query(rusqlite::params_from_iter(parameters))
}

/// `rusqlite::Rows::next`: the next row of the result, `None` after the
/// last, or fails.
#[verifier::external_body]
pub(crate) fn next_row<'rows, 'stmt>(rows: &'rows mut rusqlite::Rows<'stmt>) -> Result<
    Option<&'rows rusqlite::Row<'stmt>>,
    rusqlite::Error,
> {
    rows.next()
}

/// `rusqlite::Row::get`, asked for a `rusqlite::types::Value`: what the row
/// holds in the column `index`, or fails.
#[verifier::external_body]
pub(crate) fn column(row: &rusqlite::Row<'_>, index: usize) -> Result<
    rusqlite::types::Value,
    rusqlite::Error,
> {
    row.get(index)
}

/// `rusqlite::Error::sqlite_error_code`: tells apart the result codes of
/// SQLite that the store reports differently.
#[verifier::external_body]
pub(crate) fn failure_of(error: &rusqlite::Error) -> Failure {
    match error.sqlite_error_code() {
        Some(rusqlite::ErrorCode::ConstraintViolation) => Failure::Constraint,
        Some(rusqlite::ErrorCode::TypeMismatch) => Failure::Mismatch,
        _ => Failure::Other,
    }
}

/// The `rusqlite::types::Value` of the same variant as `cell`, holding what
/// the cell holds.
#[verifier::external_body]
pub(crate) fn sql_value(cell: Cell) -> rusqlite::types::Value {
    match cell {
        Cell::Null => rusqlite::types::Value::Null,
        Cell::Integer(number) => rusqlite::types::Value::Integer(number),
        Cell::Real(carried) => carried.raw,
        Cell::Text(text) => rusqlite::types::Value::Text(text),
        Cell::Blob(bytes) => rusqlite::types::Value::Blob(bytes),
    }
}

/// The cell that stands for a value of the storage engine: the cell of the
/// same variant, holding what the value holds.
pub uninterp spec fn cell_for(value: rusqlite::types::Value) -> Cell;

/// Takes a `rusqlite::types::Value` apart, one variant after the other, and
/// gives the cell that stands for it.
#[verifier::external_body]
pub(crate) fn cell_of(value: rusqlite::types::Value) -> (cell: Cell)
    ensures
        cell == cell_for(value),
{
    match value {
        rusqlite::types::Value::Null => Cell::Null,
        rusqlite::types::Value::Integer(number) => Cell::Integer(number),
        rusqlite::types::Value::Real(_) => Cell::Real(Real { raw: value }),
        rusqlite::types::Value::Text(text) => Cell::Text(text),
        rusqlite::types::Value::Blob(bytes) => Cell::Blob(bytes),
    }
}

} // verus!
