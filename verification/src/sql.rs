//! The statements that the store hands to the storage engine: their text,
//! which holds names only, and the cells that are bound to their `?`.

use crate::error::{StoreError, StoreErrorView};
use crate::name_map::NameMap;
use crate::schema::{FieldType, Schema};
use crate::value::{Cell, FieldValue};
use vstd::prelude::*;
use vstd::string::*;

verus! {

/// A statement for the storage engine. The text never holds a value: each
/// value is a parameter, bound to a `?` of the text in order.
#[derive(Debug, PartialEq)]
pub struct Command {
    pub text: String,
    pub parameters: Vec<Cell>,
}

/// The parts in order, with the separator between each two.
pub open spec fn joined(parts: Seq<Seq<char>>, separator: Seq<char>) -> Seq<char>
    decreases parts.len(),
{
    if parts.len() == 0 {
        Seq::empty()
    } else if parts.len() == 1 {
        parts[0]
    } else {
        joined(parts.drop_last(), separator) + separator + parts.last()
    }
}

/// Each text as its characters.
pub open spec fn characters(texts: Seq<String>) -> Seq<Seq<char>> {
    Seq::new(texts.len(), |i: int| texts[i]@)
}

/// Joins the parts in order, with the separator between each two.
pub fn join(parts: &Vec<String>, separator: &str) -> (text: String)
    ensures
        text@ == joined(characters(parts@), separator@),
{
    let mut text = String::new();
    let mut i: usize = 0;
    while i < parts.len()
        invariant
            i <= parts@.len(),
            text@ == joined(characters(parts@).take(i as int), separator@),
        decreases parts@.len() - i,
    {
        let ghost before = characters(parts@).take(i as int);
        let ghost after = characters(parts@).take(i + 1);
        assert(after.drop_last() =~= before);
        assert(after.last() == parts@[i as int]@);
        if i > 0 {
            text.append(separator);
        }
        text.append(parts[i].as_str());
        assert(text@ =~= joined(after, separator@));
        i = i + 1;
    }
    assert(characters(parts@).take(parts@.len() as int) =~= characters(parts@));
    text
}

/// The definition of the column that holds a field: every column must be
/// filled.
pub open spec fn column_definition(name: Seq<char>, field_type: FieldType) -> Seq<char> {
    name + " "@ + field_type.column_type() + " NOT NULL"@
}

/// The definitions of a table's columns: the identity column, then one
/// column for each field in order.
pub open spec fn column_definitions(schema: Schema) -> Seq<Seq<char>> {
    seq!["id INTEGER PRIMARY KEY"@] + Seq::new(
        schema.fields@.len(),
        |i: int| column_definition(schema.fields@[i].0, schema.fields@[i].1),
    )
}

/// The statement that provides the table of a schema, unless it is there.
pub open spec fn create_table_text(schema: Schema) -> Seq<char> {
    "CREATE TABLE IF NOT EXISTS "@ + schema.name@ + " ("@ + joined(
        column_definitions(schema),
        ", "@,
    ) + ")"@
}

/// The statement that asks the storage engine to describe a table, one row
/// for each column.
pub open spec fn describe_text(table: Seq<char>) -> Seq<char> {
    "PRAGMA table_info("@ + table + ")"@
}

/// The columns that a record is read from: the identity column, then the
/// fields in order.
pub open spec fn selected_columns(schema: Schema) -> Seq<Seq<char>> {
    seq!["id"@] + schema.field_names()
}

/// The statement that reads every record of a schema.
pub open spec fn select_all_text(schema: Schema) -> Seq<char> {
    "SELECT "@ + joined(selected_columns(schema), ", "@) + " FROM "@ + schema.name@
}

/// The statement that reads the record with the identifier bound to its `?`.
pub open spec fn select_one_text(schema: Schema) -> Seq<char> {
    select_all_text(schema) + " WHERE id = ?"@
}

/// As many `?` as there are names.
pub open spec fn placeholders(count: nat) -> Seq<Seq<char>> {
    Seq::new(count, |i: int| "?"@)
}

/// The statement that stores a record with the fields `names`. With no field
/// it asks for a row of defaults, which a table with fields refuses.
pub open spec fn insert_text(table: Seq<char>, names: Seq<Seq<char>>) -> Seq<char> {
    if names.len() == 0 {
        "INSERT INTO "@ + table + " DEFAULT VALUES"@
    } else {
        "INSERT INTO "@ + table + " ("@ + joined(names, ", "@) + ") VALUES ("@ + joined(
            placeholders(names.len()),
            ", "@,
        ) + ")"@
    }
}

/// One assignment for each name.
pub open spec fn assignments(names: Seq<Seq<char>>) -> Seq<Seq<char>> {
    Seq::new(names.len(), |i: int| names[i] + " = ?"@)
}

/// The statement that gives the fields `names` of one record new values.
pub open spec fn update_text(table: Seq<char>, names: Seq<Seq<char>>) -> Seq<char> {
    "UPDATE "@ + table + " SET "@ + joined(assignments(names), ", "@) + " WHERE id = ?"@
}

/// The statement that removes one record.
pub open spec fn delete_text(table: Seq<char>) -> Seq<char> {
    "DELETE FROM "@ + table + " WHERE id = ?"@
}

/// The names of a record's fields, in order.
pub open spec fn names_of(data: Seq<(Seq<char>, FieldValue)>) -> Seq<Seq<char>> {
    Seq::new(data.len(), |i: int| data[i].0)
}

/// What is handed to the storage engine for a record's fields, in order.
pub open spec fn cells_of(data: Seq<(Seq<char>, FieldValue)>) -> Seq<Cell> {
    Seq::new(data.len(), |i: int| data[i].1.cell())
}

/// The first of `names` that the schema does not declare, if there is one.
pub open spec fn first_undeclared(schema: Schema, names: Seq<Seq<char>>) -> Option<Seq<char>>
    decreases names.len(),
{
    if names.len() == 0 {
        None
    } else if !schema.declares(names[0]) {
        Some(names[0])
    } else {
        first_undeclared(schema, names.drop_first())
    }
}

/// Every value of a declared field is tagged with the kind of that field.
pub open spec fn well_typed(schema: Schema, data: Seq<(Seq<char>, FieldValue)>) -> bool {
    forall|i: int|
        0 <= i < data.len() && schema.declares((#[trigger] data[i]).0) ==> data[i].1.field_type()
            == schema.fields.value_of(data[i].0)
}

/// Why a record cannot be written under a schema, if it cannot: a field
/// that the schema does not declare comes before everything else, then a
/// value that is not of the kind of its field.
pub open spec fn rejection(schema: Schema, data: Seq<(Seq<char>, FieldValue)>) -> Option<
    StoreErrorView,
> {
    match first_undeclared(schema, names_of(data)) {
        Some(name) => Some(StoreErrorView::UnknownField(name)),
        None => if well_typed(schema, data) {
            None
        } else {
            Some(StoreErrorView::ConstraintViolation)
        },
    }
}

/// Where no name is undeclared, every name is declared.
pub proof fn lemma_all_declared(schema: Schema, names: Seq<Seq<char>>)
    ensures
        first_undeclared(schema, names) is None <==> forall|i: int|
            0 <= i < names.len() ==> schema.declares(#[trigger] names[i]),
    decreases names.len(),
{
    if names.len() > 0 {
        let rest = names.drop_first();
        lemma_all_declared(schema, rest);
        if first_undeclared(schema, names) is None {
            assert forall|i: int| 0 <= i < names.len() implies schema.declares(
                #[trigger] names[i],
            ) by {
                if i > 0 {
                    assert(rest[i - 1] == names[i]);
                }
            }
        } else if schema.declares(names[0]) {
            let k = choose|k: int| 0 <= k < rest.len() && !schema.declares(#[trigger] rest[k]);
            assert(names[k + 1] == rest[k]);
        }
    }
}

/// Validates a record against a schema before anything is written.
pub fn validate(schema: &Schema, data: &NameMap<FieldValue>) -> (valid: Result<(), StoreError>)
    ensures
        match rejection(*schema, data@) {
            Some(error) => valid matches Err(e) && e@ == error,
            None => valid is Ok,
        },
{
    let n: usize = data.len();
    let ghost names = names_of(data@);
    let mut i: usize = 0;
    assert(names.skip(0) =~= names);
    while i < n
        invariant
            n == data@.len(),
            names == names_of(data@),
            i <= n,
            first_undeclared(*schema, names) == first_undeclared(*schema, names.skip(i as int)),
        decreases n - i,
    {
        let name = data.name_at(i);
        let ghost rest = names.skip(i as int);
        assert(rest[0] == name@);
        assert(rest.drop_first() =~= names.skip(i + 1));
        if !schema.fields.contains_key(name.as_str()) {
            return Err(StoreError::UnknownField(name.clone()));
        }
        i = i + 1;
    }
    assert(first_undeclared(*schema, names_of(data@)) is None);
    proof {
        lemma_all_declared(*schema, names);
        assert forall|k: int| 0 <= k < data@.len() implies schema.declares(
            (#[trigger] data@[k]).0,
        ) by {
            assert(names[k] == data@[k].0);
        }
    }
    let mut j: usize = 0;
    while j < n
        invariant
            n == data@.len(),
            j <= n,
            first_undeclared(*schema, names_of(data@)) is None,
            forall|k: int| 0 <= k < data@.len() ==> schema.declares((#[trigger] data@[k]).0),
            forall|k: int|
                0 <= k < j ==> (#[trigger] data@[k]).1.field_type() == schema.fields.value_of(
                    data@[k].0,
                ),
        decreases n - j,
    {
        let declared = schema.fields.get(data.name_at(j).as_str());
        assert(schema.declares(data@[j as int].0));
        match declared {
            Some(field_type) => {
                if *field_type != data.value_at(j).kind() {
                    assert(data@[j as int].1.field_type() != schema.fields.value_of(
                        data@[j as int].0,
                    ));
                    return Err(StoreError::ConstraintViolation);
                }
            },
            None => {},
        }
        j = j + 1;
    }
    Ok(())
}

/// The statement that provides the table of `schema`: an identity column
/// and one column for each field, of the type of its kind.
pub fn create_table(schema: &Schema) -> (command: Command)
    ensures
        command.text@ == create_table_text(*schema),
        command.parameters@.len() == 0,
{
    let n: usize = schema.fields.len();
    let mut definitions: Vec<String> = Vec::new();
    definitions.push(String::from_str("id INTEGER PRIMARY KEY"));
    let mut i: usize = 0;
    while i < n
        invariant
            n == schema.fields@.len(),
            i <= n,
            definitions@.len() == i + 1,
            forall|k: int|
                0 <= k <= i ==> (#[trigger] definitions@[k])@ == column_definitions(*schema)[k],
        decreases n - i,
    {
        let name = schema.fields.name_at(i);
        let field_type = *schema.fields.value_at(i);
        let definition = name.clone().concat(" ").concat(field_type.sql_type()).concat(" NOT NULL");
        definitions.push(definition);
        i = i + 1;
    }
    assert(characters(definitions@) =~= column_definitions(*schema));
    let columns = join(&definitions, ", ");
    let text = String::from_str("CREATE TABLE IF NOT EXISTS ").concat(schema.name.as_str()).concat(
        " (",
    ).concat(columns.as_str()).concat(")");
    Command { text, parameters: Vec::new() }
}

/// The statement that asks for the description of the table of `schema`.
pub fn describe(schema: &Schema) -> (command: Command)
    ensures
        command.text@ == describe_text(schema.name@),
        command.parameters@.len() == 0,
{
    let text = String::from_str("PRAGMA table_info(").concat(schema.name.as_str()).concat(")");
    Command { text, parameters: Vec::new() }
}

/// The text that reads every record of `schema`.
fn select_text(schema: &Schema) -> (text: String)
    ensures
        text@ == select_all_text(*schema),
{
    let n: usize = schema.fields.len();
    let mut columns: Vec<String> = Vec::new();
    columns.push(String::from_str("id"));
    let mut i: usize = 0;
    while i < n
        invariant
            n == schema.fields@.len(),
            i <= n,
            columns@.len() == i + 1,
            forall|k: int| 0 <= k <= i ==> (#[trigger] columns@[k])@ == selected_columns(*schema)[k],
        decreases n - i,
    {
        columns.push(schema.fields.name_at(i).clone());
        i = i + 1;
    }
    assert(characters(columns@) =~= selected_columns(*schema));
    let listed = join(&columns, ", ");
    String::from_str("SELECT ").concat(listed.as_str()).concat(" FROM ").concat(
        schema.name.as_str(),
    )
}

/// The statement that reads every record of `schema`.
pub fn select_all(schema: &Schema) -> (command: Command)
    ensures
        command.text@ == select_all_text(*schema),
        command.parameters@.len() == 0,
{
    Command { text: select_text(schema), parameters: Vec::new() }
}

/// The statement that reads the record `id` of `schema`.
pub fn select_one(schema: &Schema, id: i32) -> (command: Command)
    ensures
        command.text@ == select_one_text(*schema),
        command.parameters@ == seq![Cell::Integer(id as i64)],
{
    let text = select_text(schema).concat(" WHERE id = ?");
    let mut parameters: Vec<Cell> = Vec::new();
    parameters.push(Cell::Integer(id as i64));
    assert(parameters@ =~= seq![Cell::Integer(id as i64)]);
    Command { text, parameters }
}

/// The statement that removes the record `id` of `schema`.
pub fn delete(schema: &Schema, id: i32) -> (command: Command)
    ensures
        command.text@ == delete_text(schema.name@),
        command.parameters@ == seq![Cell::Integer(id as i64)],
{
    let text = String::from_str("DELETE FROM ").concat(schema.name.as_str()).concat(
        " WHERE id = ?",
    );
    let mut parameters: Vec<Cell> = Vec::new();
    parameters.push(Cell::Integer(id as i64));
    assert(parameters@ =~= seq![Cell::Integer(id as i64)]);
    Command { text, parameters }
}

/// Takes a record apart: the names of its fields and, in the same order,
/// what is handed to the storage engine for each.
fn split(data: NameMap<FieldValue>) -> (parts: (Vec<String>, Vec<Cell>))
    ensures
        characters(parts.0@) == names_of(data@),
        parts.1@ == cells_of(data@),
{
    let entries = data.into_entries();
    let mut names: Vec<String> = Vec::new();
    let mut cells: Vec<Cell> = Vec::new();
    for entry in it: entries
        invariant
            it.seq() == entries@,
            entries@.len() == data@.len(),
            forall|k: int|
                0 <= k < entries@.len() ==> (#[trigger] entries@[k]).0@ == data@[k].0
                    && entries@[k].1 == data@[k].1,
            names@.len() == it.index(),
            cells@.len() == it.index(),
            forall|k: int| 0 <= k < it.index() ==> (#[trigger] names@[k])@ == data@[k].0,
            forall|k: int| 0 <= k < it.index() ==> #[trigger] cells@[k] == data@[k].1.cell(),
    {
        names.push(entry.0);
        cells.push(entry.1.into_cell());
    }
    assert(characters(names@) =~= names_of(data@));
    assert(cells@ =~= cells_of(data@));
    (names, cells)
}

/// The statement that stores `data` as a new record of `schema`, with the
/// values as parameters in the order of the fields, or why the record
/// cannot be written.
pub fn insert(schema: &Schema, data: NameMap<FieldValue>) -> (planned: Result<Command, StoreError>)
    ensures
        match rejection(*schema, data@) {
            Some(error) => planned matches Err(e) && e@ == error,
            None => planned matches Ok(command) && command.text@ == insert_text(
                schema.name@,
                names_of(data@),
            ) && command.parameters@ == cells_of(data@),
        },
{
    match validate(schema, &data) {
        Err(error) => {
            return Err(error);
        },
        Ok(_) => {},
    }
    let (names, parameters) = split(data);
    let table = schema.name.as_str();
    if names.len() == 0 {
        let text = String::from_str("INSERT INTO ").concat(table).concat(" DEFAULT VALUES");
        return Ok(Command { text, parameters });
    }
    let mut marks: Vec<String> = Vec::new();
    let mut i: usize = 0;
    while i < names.len()
        invariant
            i <= names@.len(),
            marks@.len() == i,
            forall|k: int| 0 <= k < i ==> (#[trigger] marks@[k])@ == "?"@,
        decreases names@.len() - i,
    {
        marks.push(String::from_str("?"));
        i = i + 1;
    }
    assert(characters(marks@) =~= placeholders(names@.len()));
    assert(characters(names@).len() == names@.len());
    let text = String::from_str("INSERT INTO ").concat(table).concat(" (").concat(
        join(&names, ", ").as_str(),
    ).concat(") VALUES (").concat(join(&marks, ", ").as_str()).concat(")");
    Ok(Command { text, parameters })
}

/// The statement that gives the fields of `data` in the record `id` of
/// `schema` new values, with the values and then the identifier as
/// parameters; `None` where `data` has no field, so that there is nothing
/// to write; or why the record cannot be written.
pub fn update(schema: &Schema, id: i32, data: NameMap<FieldValue>) -> (planned: Result<
    Option<Command>,
    StoreError,
>)
    ensures
        match rejection(*schema, data@) {
            Some(error) => planned matches Err(e) && e@ == error,
            None => if data@.len() == 0 {
                planned matches Ok(None)
            } else {
                planned matches Ok(Some(command)) && command.text@ == update_text(
                    schema.name@,
                    names_of(data@),
                ) && command.parameters@ == cells_of(data@).push(Cell::Integer(id as i64))
            },
        },
{
    match validate(schema, &data) {
        Err(error) => {
            return Err(error);
        },
        Ok(_) => {},
    }
    let (names, mut parameters) = split(data);
    if names.len() == 0 {
        return Ok(None);
    }
    let mut sets: Vec<String> = Vec::new();
    let mut i: usize = 0;
    while i < names.len()
        invariant
            i <= names@.len(),
            sets@.len() == i,
            forall|k: int| 0 <= k < i ==> (#[trigger] sets@[k])@ == names@[k]@ + " = ?"@,
        decreases names@.len() - i,
    {
        sets.push(names[i].clone().concat(" = ?"));
        i = i + 1;
    }
    assert(characters(sets@) =~= assignments(characters(names@)));
    parameters.push(Cell::Integer(id as i64));
    let text = String::from_str("UPDATE ").concat(schema.name.as_str()).concat(" SET ").concat(
        join(&sets, ", ").as_str(),
    ).concat(" WHERE id = ?");
    Ok(Some(Command { text, parameters }))
}

} // verus!
