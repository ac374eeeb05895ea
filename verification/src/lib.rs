//! A schema-driven record store on top of SQLite.
//!
//! Record types are defined at run time as schemas with typed fields. The
//! store keeps a table for each schema and creates, reads, updates and
//! deletes records, checking every name against the schema before it goes
//! into a statement and handing every value over as a bound parameter.

pub mod database;
pub mod engine;
pub mod error;
pub mod laws;
pub mod name_map;
pub mod names;
pub mod safety;
pub mod schema;
pub mod sql;
pub mod table;
pub mod value;

pub use database::FlexibleDatabase;
pub use error::{Failure, StoreError};
pub use name_map::NameMap;
pub use schema::{FieldType, Schema};
pub use sql::Command;
pub use value::{Cell, FieldValue, Model, Real};
