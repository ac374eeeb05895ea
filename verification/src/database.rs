//! The store: the registry of schemas together with the connection to the
//! storage engine, and the operations on records.

use crate::engine::{
    cell_of, column, execute, failure_of, last_insert_rowid, next_row, open, prepare, query,
    sql_value,
};
use crate::error::{
    report_change, report_definition, report_insertion, report_table, Failure, StoreError,
    StoreErrorView,
};
use crate::name_map::{
    bound_value, distinct_names, has_name, lemma_with_entry_distinct, position, with_entry,
    NameMap,
};
use crate::safety::{
    harmless, lemma_create_table_harmless, lemma_delete_harmless, lemma_describe_harmless,
    lemma_insert_harmless, lemma_select_harmless, lemma_update_harmless,
};
use crate::schema::{first_invalid, Schema};
use crate::sql::{lemma_all_declared, names_of, rejection, Command};
use crate::table::{agrees, DESCRIPTION_CELLS};
use crate::value::{conforms, decode_first, decode_rows, Cell, FieldValue, Model};
use vstd::prelude::*;

verus! {

/// What holds of every registry: each schema stands under its own name, all
/// its names are identifiers, and no name occurs twice, among the schemas
/// and among the fields of each.
pub open spec fn registry_holds(registry: Seq<(Seq<char>, Schema)>) -> bool {
    &&& distinct_names(registry)
    &&& forall|i: int|
        0 <= i < registry.len() ==> {
            &&& (#[trigger] registry[i]).1.name@ == registry[i].0
            &&& registry[i].1.safe()
            &&& registry[i].1.fields.well_formed()
        }
}

/// A record store: the schemas that were defined, and the connection to the
/// database that holds their records.
pub struct FlexibleDatabase {
    conn: rusqlite::Connection,
    schemas: NameMap<Schema>,
}

impl View for FlexibleDatabase {
    type V = Seq<(Seq<char>, Schema)>;

    /// The registry: the schemas in the order in which their names were
    /// first defined, each under its name.
    closed spec fn view(&self) -> Seq<(Seq<char>, Schema)> {
        self.schemas@
    }
}

impl FlexibleDatabase {
    /// What every store satisfies.
    #[verifier::type_invariant]
    pub open spec fn well_formed(&self) -> bool {
        registry_holds(self@)
    }

    /// Whether a schema `name` is defined.
    pub open spec fn defined(&self, name: Seq<char>) -> bool {
        has_name(self@, name)
    }

    /// The schema defined as `name`, where there is one.
    pub open spec fn schema_of(&self, name: Seq<char>) -> Schema {
        bound_value(self@, name)
    }

    /// Opens the database at `db_path` and starts with no schema. A database
    /// that cannot be opened is a fault of the storage.
    pub fn new(db_path: &str) -> (opened: Result<FlexibleDatabase, StoreError>)
        ensures
            match opened {
                Ok(database) => database@.len() == 0 && database.well_formed(),
                Err(error) => error == StoreError::StorageFault,
            },
    {
        match open(db_path) {
            Ok(conn) => Ok(FlexibleDatabase::with_connection(conn)),
            Err(_) => Err(StoreError::StorageFault),
        }
    }

    /// The connection that the store holds.
    pub closed spec fn engine(&self) -> rusqlite::Connection {
        self.conn
    }

    /// The connection to the database.
    pub fn connection(&self) -> (connection: &rusqlite::Connection)
        ensures
            *connection == self.engine(),
    {
        &self.conn
    }

    /// The schema defined as `name`, if there is one.
    pub fn lookup(&self, name: &str) -> (found: Option<&Schema>)
        ensures
            self.well_formed(),
            match found {
                Some(schema) => self.defined(name@) && *schema == self.schema_of(name@)
                    && schema.name@ == name@ && schema.safe() && schema.fields.well_formed(),
                None => !self.defined(name@),
            },
    {
        proof {
            use_type_invariant(self);
        }
        let found = self.schemas.get(name);
        proof {
            if found is Some {
                let p = position(self@, name@);
                assert(self@[p].0 == name@);
            }
        }
        found
    }

    /// Hands a statement to the storage engine and returns how many rows it
    /// changed, or how it failed.
    fn run(&self, command: Command) -> Result<usize, Failure>
        requires
            harmless(command.text@),
    {
        let Command { text, parameters } = command;
        let mut bound: Vec<rusqlite::types::Value> = Vec::new();
        for cell in it: parameters {
            bound.push(sql_value(cell));
        }
        match execute(&self.conn, text.as_str(), bound) {
            Ok(rows) => Ok(rows),
            Err(error) => Err(failure_of(&error)),
        }
    }

    /// Registers `schema` under its name, in place of an earlier schema of
    /// that name, and provides the table for its records unless it is there.
    ///
    /// A schema with a name that is not an identifier is refused and changes
    /// nothing. Otherwise the schema is registered whatever the storage
    /// engine answers. A failure to provide the table is a `SchemaError`,
    /// and so is a table of that name that is there already and is not the
    /// table of the schema.
    pub fn define_schema(&mut self, schema: Schema) -> (defined: Result<(), StoreError>)
        ensures
            final(self).well_formed(),
            final(self).engine() == old(self).engine(),
            match first_invalid(schema.all_names()) {
                Some(name) => final(self)@ == old(self)@ && (defined matches Err(e) && e@
                    == StoreErrorView::InvalidName(name)),
                None => {
                    &&& final(self)@ == with_entry(old(self)@, schema.name@, schema)
                    &&& final(self).defined(schema.name@)
                    &&& final(self).schema_of(schema.name@) == schema
                    &&& (defined == Ok::<(), StoreError>(()) || defined == Err::<(), StoreError>(
                        StoreError::SchemaError,
                    ))
                },
            },
    {
        proof {
            use_type_invariant(&*self);
            use_type_invariant(&schema.fields);
        }
        match schema.validate_names() {
            Err(error) => {
                return Err(error);
            },
            Ok(_) => {},
        }
        let command = crate::sql::create_table(&schema);
        let question = crate::sql::describe(&schema);
        proof {
            lemma_create_table_harmless(schema);
            lemma_describe_harmless(schema);
        }
        let name = schema.name.clone();
        let key = schema.name.clone();
        let mut schemas: NameMap<Schema> = NameMap::new();
        core::mem::swap(&mut self.schemas, &mut schemas);
        proof {
            let before = schemas@;
            let after = with_entry(before, name@, schema);
            lemma_with_entry_distinct(before, name@, schema);
            assert forall|i: int| 0 <= i < after.len() implies {
                &&& (#[trigger] after[i]).1.name@ == after[i].0
                &&& after[i].1.safe()
                &&& after[i].1.fields.well_formed()
            } by {
                if has_name(before, name@) {
                    if i != position(before, name@) {
                        assert(after[i] == before[i]);
                    }
                } else {
                    if i < before.len() {
                        assert(after[i] == before[i]);
                    }
                }
            }
        }
        schemas.insert(name, schema);
        core::mem::swap(&mut self.schemas, &mut schemas);
        match report_definition(self.run(command)) {
            Ok(_) => {},
            Err(error) => {
                return Err(error);
            },
        }
        let described = match self.select(question, DESCRIPTION_CELLS - 1, false) {
            Ok(rows) => match self.schemas.get(key.as_str()) {
                Some(registered) => Ok(agrees(registered, &rows)),
                None => Err(StoreError::StorageFault),
            },
            Err(error) => Err(error),
        };
        report_table(described)
    }

    /// Stores `data` as a new record of the schema `schema_name` and returns
    /// the identifier that the storage engine gave it.
    ///
    /// The schema must be defined and must declare every field of `data`,
    /// and each value must be of the kind of its field; otherwise nothing is
    /// handed to the storage engine. What the engine then refuses, such as a
    /// record that leaves a declared field out, is a `ConstraintViolation`.
    pub fn create_model(&self, schema_name: &str, data: NameMap<FieldValue>) -> (created: Result<
        i32,
        StoreError,
    >)
        ensures
            !self.defined(schema_name@) ==> created == Err::<i32, StoreError>(
                StoreError::UnknownSchema,
            ),
            self.defined(schema_name@) ==> match rejection(self.schema_of(schema_name@), data@) {
                Some(error) => created matches Err(e) && e@ == error,
                None => created is Ok || created == Err::<i32, StoreError>(
                    StoreError::ConstraintViolation,
                ) || created == Err::<i32, StoreError>(StoreError::StorageFault),
            },
    {
        let schema = match self.lookup(schema_name) {
            Some(schema) => schema,
            None => {
                return Err(StoreError::UnknownSchema);
            },
        };
        let command = match crate::sql::insert(schema, data) {
            Ok(command) => command,
            Err(error) => {
                return Err(error);
            },
        };
        proof {
            lemma_all_declared(*schema, names_of(data@));
            lemma_insert_harmless(*schema, names_of(data@));
        }
        let outcome = match self.run(command) {
            Ok(_) => Ok(last_insert_rowid(&self.conn)),
            Err(failure) => Err(failure),
        };
        report_insertion(outcome)
    }

    /// Gives the fields of `data` in the record `id` of the schema
    /// `schema_name` new values and leaves its other fields as they are.
    /// Returns whether there was such a record.
    ///
    /// The schema must be defined and must declare every field of `data`,
    /// and each value must be of the kind of its field; otherwise nothing is
    /// handed to the storage engine. With no field in `data` there is
    /// nothing to write: the answer is `false` and the storage engine is not
    /// asked.
    pub fn update_model(&self, schema_name: &str, id: i32, data: NameMap<FieldValue>) -> (updated:
        Result<bool, StoreError>)
        ensures
            !self.defined(schema_name@) ==> updated == Err::<bool, StoreError>(
                StoreError::UnknownSchema,
            ),
            self.defined(schema_name@) ==> match rejection(self.schema_of(schema_name@), data@) {
                Some(error) => updated matches Err(e) && e@ == error,
                None => if data@.len() == 0 {
                    updated == Ok::<bool, StoreError>(false)
                } else {
                    updated is Ok || updated == Err::<bool, StoreError>(
                        StoreError::ConstraintViolation,
                    ) || updated == Err::<bool, StoreError>(StoreError::StorageFault)
                },
            },
    {
        let schema = match self.lookup(schema_name) {
            Some(schema) => schema,
            None => {
                return Err(StoreError::UnknownSchema);
            },
        };
        let command = match crate::sql::update(schema, id, data) {
            Ok(Some(command)) => command,
            Ok(None) => {
                return Ok(false);
            },
            Err(error) => {
                return Err(error);
            },
        };
        proof {
            lemma_all_declared(*schema, names_of(data@));
            lemma_update_harmless(*schema, names_of(data@));
        }
        report_change(self.run(command))
    }

    /// Removes the record `id` of the schema `schema_name`. Returns whether
    /// there was such a record.
    pub fn delete_model(&self, schema_name: &str, id: i32) -> (deleted: Result<bool, StoreError>)
        ensures
            !self.defined(schema_name@) ==> deleted == Err::<bool, StoreError>(
                StoreError::UnknownSchema,
            ),
            self.defined(schema_name@) ==> deleted is Ok || deleted == Err::<bool, StoreError>(
                StoreError::ConstraintViolation,
            ) || deleted == Err::<bool, StoreError>(StoreError::StorageFault),
    {
        let schema = match self.lookup(schema_name) {
            Some(schema) => schema,
            None => {
                return Err(StoreError::UnknownSchema);
            },
        };
        proof {
            lemma_delete_harmless(*schema);
        }
        report_change(self.run(crate::sql::delete(schema, id)))
    }

    /// Hands a query to the storage engine and reads the rows that it gives,
    /// all of them or the first only: of each row the first `width + 1`
    /// cells. Every row that the engine hands over is kept, in the order in
    /// which it came.
    fn select(&self, command: Command, width: usize, first_only: bool) -> (selected: Result<
        Vec<Vec<Cell>>,
        StoreError,
    >)
        requires
            harmless(command.text@),
        ensures
            match selected {
                Ok(rows) => (first_only ==> rows@.len() <= 1) && forall|i: int|
                    0 <= i < rows@.len() ==> (#[trigger] rows@[i])@.len() == width + 1,
                Err(error) => error == StoreError::StorageFault,
            },
    {
        let Command { text, parameters } = command;
        let mut bound: Vec<rusqlite::types::Value> = Vec::new();
        for cell in it: parameters {
            bound.push(sql_value(cell));
        }
        let mut statement = match prepare(&self.conn, text.as_str()) {
            Ok(statement) => statement,
            Err(_) => {
                return Err(StoreError::StorageFault);
            },
        };
        let mut queried = match query(&mut statement, bound) {
            Ok(queried) => queried,
            Err(_) => {
                return Err(StoreError::StorageFault);
            },
        };
        let mut rows: Vec<Vec<Cell>> = Vec::new();
        let mut more: bool = true;
        while more
            invariant
                first_only ==> rows@.len() <= 1,
                first_only && rows@.len() == 1 ==> !more,
                forall|i: int| 0 <= i < rows@.len() ==> (#[trigger] rows@[i])@.len() == width + 1,
            decreases usize::MAX - rows@.len() + (if more { 1int } else { 0int }),
        {
            if rows.len() == usize::MAX {
                return Err(StoreError::StorageFault);
            }
            match next_row(&mut queried) {
                Err(_) => {
                    return Err(StoreError::StorageFault);
                },
                Ok(None) => {
                    more = false;
                },
                Ok(Some(row)) => {
                    match read_cells(row, width) {
                        Ok(cells) => {
                            rows.push(cells);
                        },
                        Err(error) => {
                            return Err(error);
                        },
                    }
                    if first_only {
                        more = false;
                    }
                },
            }
        }
        Ok(rows)
    }

    /// Reads the record `id` of the schema `schema_name`, with every
    /// declared field, or `None` where there is no such record.
    pub fn get_model(&self, schema_name: &str, id: i32) -> (found: Result<
        Option<Model>,
        StoreError,
    >)
        ensures
            !self.defined(schema_name@) ==> found == Err::<Option<Model>, StoreError>(
                StoreError::UnknownSchema,
            ),
            self.defined(schema_name@) ==> match found {
                Ok(Some(model)) => conforms(self.schema_of(schema_name@), model),
                Ok(None) => true,
                Err(error) => error == StoreError::StorageFault,
            },
    {
        let schema = match self.lookup(schema_name) {
            Some(schema) => schema,
            None => {
                return Err(StoreError::UnknownSchema);
            },
        };
        proof {
            lemma_select_harmless(*schema);
        }
        match self.select(crate::sql::select_one(schema, id), schema.fields.len(), true) {
            Ok(rows) => decode_first(schema, rows),
            Err(error) => Err(error),
        }
    }

    /// Reads every record of the schema `schema_name`, in the order in which
    /// the storage engine gives them.
    pub fn get_all_models(&self, schema_name: &str) -> (found: Result<Vec<Model>, StoreError>)
        ensures
            !self.defined(schema_name@) ==> found == Err::<Vec<Model>, StoreError>(
                StoreError::UnknownSchema,
            ),
            self.defined(schema_name@) ==> match found {
                Ok(models) => forall|i: int|
                    0 <= i < models@.len() ==> conforms(
                        self.schema_of(schema_name@),
                        #[trigger] models@[i],
                    ),
                Err(error) => error == StoreError::StorageFault,
            },
    {
        let schema = match self.lookup(schema_name) {
            Some(schema) => schema,
            None => {
                return Err(StoreError::UnknownSchema);
            },
        };
        proof {
            lemma_select_harmless(*schema);
        }
        match self.select(crate::sql::select_all(schema), schema.fields.len(), false) {
            Ok(rows) => decode_rows(schema, rows),
            Err(error) => Err(error),
        }
    }

    /// A store with no schema on a connection that is open already.
    pub fn with_connection(conn: rusqlite::Connection) -> (database: FlexibleDatabase)
        ensures
            database@.len() == 0,
            database.engine() == conn,
            database.well_formed(),
    {
        FlexibleDatabase { conn, schemas: NameMap::new() }
    }
}

/// Reads the first `width + 1` columns of a row: the identifier and one cell
/// for each field.
fn read_cells(row: &rusqlite::Row<'_>, width: usize) -> (read: Result<Vec<Cell>, StoreError>)
    ensures
        match read {
            Ok(cells) => cells@.len() == width + 1,
            Err(error) => error == StoreError::StorageFault,
        },
{
    if width == usize::MAX {
        return Err(StoreError::StorageFault);
    }
    let mut cells: Vec<Cell> = Vec::new();
    let mut index: usize = 0;
    while index <= width
        invariant
            width < usize::MAX,
            index <= width + 1,
            cells@.len() == index,
        decreases width + 1 - index,
    {
        match column(row, index) {
            Ok(value) => {
                cells.push(cell_of(value));
            },
            Err(_) => {
                return Err(StoreError::StorageFault);
            },
        }
        index = index + 1;
    }
    Ok(cells)
}

} // verus!
