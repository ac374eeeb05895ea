//! The errors that the store reports, and how a failure of the storage engine
//! is turned into one of them.

use vstd::prelude::*;
use vstd::string::*;

verus! {

/// Why an operation of the store failed.
#[derive(Clone, Debug, PartialEq, Eq)]
pub enum StoreError {
    /// The operation named a schema that was never defined.
    UnknownSchema,
    /// The record named a field that its schema does not declare.
    UnknownField(String),
    /// A schema or field name is not an identifier.
    InvalidName(String),
    /// The write was rejected: a declared field is missing, or a value is not
    /// of the type of its field.
    ConstraintViolation,
    /// Storage for a schema could not be provided.
    SchemaError,
    /// Any other failure of the storage engine.
    StorageFault,
}

/// A `StoreError` with each name as its characters.
pub enum StoreErrorView {
    UnknownSchema,
    UnknownField(Seq<char>),
    InvalidName(Seq<char>),
    ConstraintViolation,
    SchemaError,
    StorageFault,
}

impl View for StoreError {
    type V = StoreErrorView;

    open spec fn view(&self) -> StoreErrorView {
        match self {
            StoreError::UnknownSchema => StoreErrorView::UnknownSchema,
            StoreError::UnknownField(name) => StoreErrorView::UnknownField(name@),
            StoreError::InvalidName(name) => StoreErrorView::InvalidName(name@),
            StoreError::ConstraintViolation => StoreErrorView::ConstraintViolation,
            StoreError::SchemaError => StoreErrorView::SchemaError,
            StoreError::StorageFault => StoreErrorView::StorageFault,
        }
    }
}

impl StoreErrorView {
    /// The text that describes the error.
    pub open spec fn message(self) -> Seq<char> {
        match self {
            StoreErrorView::UnknownSchema => "unknown schema"@,
            StoreErrorView::UnknownField(name) => "unknown field: "@ + name,
            StoreErrorView::InvalidName(name) => "invalid name: "@ + name,
            StoreErrorView::ConstraintViolation => "constraint violation"@,
            StoreErrorView::SchemaError => "schema error"@,
            StoreErrorView::StorageFault => "storage fault"@,
        }
    }
}

impl StoreError {
    /// A text that describes the error, with the name it is about.
    pub fn message(&self) -> (text: String)
        ensures
            text@ == self@.message(),
    {
        match self {
            StoreError::UnknownSchema => String::from_str("unknown schema"),
            StoreError::UnknownField(name) => String::from_str("unknown field: ").concat(
                name.as_str(),
            ),
            StoreError::InvalidName(name) => String::from_str("invalid name: ").concat(
                name.as_str(),
            ),
            StoreError::ConstraintViolation => String::from_str("constraint violation"),
            StoreError::SchemaError => String::from_str("schema error"),
            StoreError::StorageFault => String::from_str("storage fault"),
        }
    }
}

/// What the storage engine reported when it failed, as far as the store tells
/// failures apart.
#[derive(Clone, Copy, Debug, PartialEq, Eq, Structural)]
pub enum Failure {
    /// A constraint of the table was violated.
    Constraint,
    /// A value was not of the type that the engine asked for.
    Mismatch,
    /// Anything else.
    Other,
}

impl Failure {
    /// The error that a failed write is reported as.
    pub open spec fn as_write_error(self) -> StoreError {
        match self {
            Failure::Constraint => StoreError::ConstraintViolation,
            Failure::Mismatch => StoreError::ConstraintViolation,
            Failure::Other => StoreError::StorageFault,
        }
    }

    /// Reports a failed write: a violated constraint and a mismatched type
    /// as `ConstraintViolation`, anything else as `StorageFault`.
    pub fn write_error(self) -> (error: StoreError)
        ensures
            error == self.as_write_error(),
    {
        match self {
            Failure::Constraint => StoreError::ConstraintViolation,
            Failure::Mismatch => StoreError::ConstraintViolation,
            Failure::Other => StoreError::StorageFault,
        }
    }
}

/// What a write that changed `rows` rows, or failed, is reported as.
pub open spec fn change_report(outcome: Result<usize, Failure>) -> Result<bool, StoreError> {
    match outcome {
        Ok(rows) => Ok(rows > 0),
        Err(failure) => Err(failure.as_write_error()),
    }
}

/// Reports an update or a removal: whether at least one row was changed,
/// or the error of the failed write.
pub fn report_change(outcome: Result<usize, Failure>) -> (report: Result<bool, StoreError>)
    ensures
        report == change_report(outcome),
{
    match outcome {
        Ok(rows) => Ok(rows > 0),
        Err(failure) => Err(failure.write_error()),
    }
}

/// What providing a table that the storage engine accepted, or refused, is
/// reported as: every failure is a `SchemaError`.
pub open spec fn definition_report(outcome: Result<usize, Failure>) -> Result<(), StoreError> {
    match outcome {
        Ok(_) => Ok(()),
        Err(_) => Err(StoreError::SchemaError),
    }
}

/// Reports the provision of a table: done, or a `SchemaError` whatever the
/// failure of the storage engine was.
pub fn report_definition(outcome: Result<usize, Failure>) -> (report: Result<(), StoreError>)
    ensures
        report == definition_report(outcome),
{
    match outcome {
        Ok(_) => Ok(()),
        Err(_) => Err(StoreError::SchemaError),
    }
}

/// What the table that is there for a schema is reported as, where
/// `described` tells whether it is the table of the schema, or that its
/// description could not be read: only a table that is known to be the
/// table of the schema is done, anything else is a `SchemaError`.
pub open spec fn table_report(described: Result<bool, StoreError>) -> Result<(), StoreError> {
    match described {
        Ok(true) => Ok(()),
        _ => Err(StoreError::SchemaError),
    }
}

/// Reports the table that is there for a schema: done where it is the table
/// of the schema, a `SchemaError` where it is another or where its
/// description could not be read.
pub fn report_table(described: Result<bool, StoreError>) -> (report: Result<(), StoreError>)
    ensures
        report == table_report(described),
{
    match described {
        Ok(true) => Ok(()),
        _ => Err(StoreError::SchemaError),
    }
}

/// What an insertion that gave a row the number `rowid`, or failed, is
/// reported as. A number that no identifier can hold is a fault.
pub open spec fn insertion_report(outcome: Result<i64, Failure>) -> Result<i32, StoreError> {
    match outcome {
        Ok(rowid) => if i32::MIN <= rowid <= i32::MAX {
            Ok(rowid as i32)
        } else {
            Err(StoreError::StorageFault)
        },
        Err(failure) => Err(failure.as_write_error()),
    }
}

/// Reports an insertion: the identifier of the new row, or the error of the
/// failed write.
pub fn report_insertion(outcome: Result<i64, Failure>) -> (report: Result<i32, StoreError>)
    ensures
        report == insertion_report(outcome),
{
    match outcome {
        Ok(rowid) => {
            if rowid >= -2147483648 && rowid <= 2147483647 {
                Ok(rowid as i32)
            } else {
                Err(StoreError::StorageFault)
            }
        },
        Err(failure) => Err(failure.write_error()),
    }
}

} // verus!
