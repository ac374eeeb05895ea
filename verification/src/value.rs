//! Values of fields, what the storage engine holds for them, and the rules
//! that turn one into the other.

use crate::error::StoreError;
use crate::name_map::{distinct_names, has_name, with_entry, NameMap};
use crate::schema::{FieldType, Schema};
use vstd::prelude::*;

verus! {

/// A real number, as the storage engine holds it. The store carries it
/// through and never looks inside.
#[derive(Debug, PartialEq)]
pub struct Real {
    pub(crate) raw: rusqlite::types::Value,
}

impl Real {
    /// The value of the storage engine that is carried.
    pub closed spec fn carried(self) -> rusqlite::types::Value {
        self.raw
    }

    /// Gives up the value of the storage engine that is carried.
    pub fn into_sql(self) -> (value: rusqlite::types::Value)
        ensures
            value == self.carried(),
    {
        self.raw
    }
}

impl Clone for Real {
    fn clone(&self) -> (copy: Self)
        ensures
            copy == *self,
    {
        Real { raw: self.raw.clone() }
    }
}

/// The value of one field, tagged with the kind of field it belongs to.
#[derive(Debug, PartialEq)]
pub enum FieldValue {
    Text(String),
    Integer(i64),
    Real(Real),
    /// A Boolean, held as an integer: zero is false, anything else is true,
    /// and one is the canonical true.
    Boolean(i64),
}

impl Clone for FieldValue {
    fn clone(&self) -> (copy: Self)
        ensures
            copy == *self,
    {
        match self {
            FieldValue::Text(text) => FieldValue::Text(text.clone()),
            FieldValue::Integer(number) => FieldValue::Integer(*number),
            FieldValue::Real(carried) => FieldValue::Real(carried.clone()),
            FieldValue::Boolean(stored) => FieldValue::Boolean(*stored),
        }
    }
}

/// What the storage engine holds in one column of one row.
#[derive(Debug, PartialEq)]
pub enum Cell {
    Null,
    Integer(i64),
    Real(Real),
    Text(String),
    Blob(Vec<u8>),
}

/// A record: its identifier, once it has been stored, and its fields.
#[derive(Clone, Debug, PartialEq)]
pub struct Model {
    pub id: Option<i32>,
    pub data: NameMap<FieldValue>,
}

/// The canonical integer of a Boolean that is held as `stored`.
pub open spec fn canonical(stored: i64) -> i64 {
    if stored == 0 {
        0
    } else {
        1
    }
}

impl FieldValue {
    /// The kind of field that the value is tagged with.
    pub open spec fn field_type(self) -> FieldType {
        match self {
            FieldValue::Text(_) => FieldType::Text,
            FieldValue::Integer(_) => FieldType::Integer,
            FieldValue::Real(_) => FieldType::Real,
            FieldValue::Boolean(_) => FieldType::Boolean,
        }
    }

    /// The value as it reads back from storage: a Boolean in canonical form,
    /// anything else as it is.
    pub open spec fn normalized(self) -> FieldValue {
        match self {
            FieldValue::Boolean(stored) => FieldValue::Boolean(canonical(stored)),
            other => other,
        }
    }

    /// What is handed to the storage engine for the value. A Boolean goes as
    /// the integer it is held as.
    pub open spec fn cell(self) -> Cell {
        match self {
            FieldValue::Text(text) => Cell::Text(text),
            FieldValue::Integer(number) => Cell::Integer(number),
            FieldValue::Real(carried) => Cell::Real(carried),
            FieldValue::Boolean(stored) => Cell::Integer(stored),
        }
    }

    /// The kind of field that the value is tagged with.
    pub fn kind(&self) -> (kind: FieldType)
        ensures
            kind == self.field_type(),
    {
        match self {
            FieldValue::Text(_) => FieldType::Text,
            FieldValue::Integer(_) => FieldType::Integer,
            FieldValue::Real(_) => FieldType::Real,
            FieldValue::Boolean(_) => FieldType::Boolean,
        }
    }

    /// Turns the value into what is handed to the storage engine for it.
    pub fn into_cell(self) -> (cell: Cell)
        ensures
            cell == self.cell(),
    {
        match self {
            FieldValue::Text(text) => Cell::Text(text),
            FieldValue::Integer(number) => Cell::Integer(number),
            FieldValue::Real(carried) => Cell::Real(carried),
            FieldValue::Boolean(stored) => Cell::Integer(stored),
        }
    }
}

/// The value that a field of kind `field_type` has when the storage engine
/// holds `cell` for it, or `None` where the cell is not of that kind. Nothing
/// is coerced: text is read from text, an integer from an integer, a real
/// from a real. A Boolean is read from an integer and comes in canonical
/// form.
pub open spec fn decoded(field_type: FieldType, cell: Cell) -> Option<FieldValue> {
    match (field_type, cell) {
        (FieldType::Text, Cell::Text(text)) => Some(FieldValue::Text(text)),
        (FieldType::Integer, Cell::Integer(number)) => Some(FieldValue::Integer(number)),
        (FieldType::Real, Cell::Real(carried)) => Some(FieldValue::Real(carried)),
        (FieldType::Boolean, Cell::Integer(stored)) => Some(FieldValue::Boolean(canonical(stored))),
        _ => None,
    }
}

/// Reads the value of a field of kind `field_type` from `cell`. A cell that
/// is not of that kind is a fault of the storage.
pub fn decode(field_type: FieldType, cell: Cell) -> (value: Result<FieldValue, StoreError>)
    ensures
        match decoded(field_type, cell) {
            Some(expected) => value == Ok::<FieldValue, StoreError>(expected),
            None => value == Err::<FieldValue, StoreError>(StoreError::StorageFault),
        },
{
    match (field_type, cell) {
        (FieldType::Text, Cell::Text(text)) => Ok(FieldValue::Text(text)),
        (FieldType::Integer, Cell::Integer(number)) => Ok(FieldValue::Integer(number)),
        (FieldType::Real, Cell::Real(carried)) => Ok(FieldValue::Real(carried)),
        (FieldType::Boolean, Cell::Integer(stored)) => {
            if stored == 0 {
                Ok(FieldValue::Boolean(0))
            } else {
                Ok(FieldValue::Boolean(1))
            }
        },
        _ => Err(StoreError::StorageFault),
    }
}

/// The identifier that a row starts with, where its first cell is an integer
/// that an identifier can hold.
pub open spec fn row_identifier(cells: Seq<Cell>) -> Option<i32> {
    if cells.len() > 0 {
        match cells[0] {
            Cell::Integer(number) => if i32::MIN <= number <= i32::MAX {
                Some(number as i32)
            } else {
                None
            },
            _ => None,
        }
    } else {
        None
    }
}

/// Whether a row reads as a record of `schema`: it holds an identifier and
/// then, for each field in order, a cell of the kind of that field.
pub open spec fn row_reads(schema: Schema, cells: Seq<Cell>) -> bool {
    &&& cells.len() == schema.fields@.len() + 1
    &&& row_identifier(cells) is Some
    &&& forall|k: int|
        0 <= k < schema.fields@.len() ==> decoded(
            (#[trigger] schema.fields@[k]).1,
            cells[k + 1],
        ) is Some
}

/// The fields of the record that a row reads as: every field of the schema,
/// in order, with the value read from its cell.
pub open spec fn row_fields(schema: Schema, cells: Seq<Cell>) -> Seq<(Seq<char>, FieldValue)> {
    Seq::new(
        schema.fields@.len(),
        |k: int| (schema.fields@[k].0, decoded(schema.fields@[k].1, cells[k + 1])->Some_0),
    )
}

impl FieldValue {
    /// Reads a value of the storage engine as the value of a field of kind
    /// `field_type`: the cell that stands for the value, read by the rule of
    /// `decoded`. A value of another kind is a fault.
    pub fn from_sql(field_type: FieldType, value: rusqlite::types::Value) -> (read: Result<
        FieldValue,
        StoreError,
    >)
        ensures
            match decoded(field_type, crate::engine::cell_for(value)) {
                Some(expected) => read == Ok::<FieldValue, StoreError>(expected),
                None => read == Err::<FieldValue, StoreError>(StoreError::StorageFault),
            },
    {
        decode(field_type, crate::engine::cell_of(value))
    }
}

/// Whether a record is one that is read under `schema`: it has an
/// identifier, and its fields are those of the schema, in order, each with a
/// value of the kind of the field, every Boolean in canonical form.
pub open spec fn conforms(schema: Schema, model: Model) -> bool {
    &&& model.id is Some
    &&& model.data@.len() == schema.fields@.len()
    &&& forall|k: int|
        0 <= k < schema.fields@.len() ==> {
            &&& (#[trigger] model.data@[k]).0 == schema.fields@[k].0
            &&& model.data@[k].1.field_type() == schema.fields@[k].1
            &&& model.data@[k].1.normalized() == model.data@[k].1
        }
}

/// Reads a row as a record of `schema`: the identifier from the first cell,
/// then every declared field from the cell that follows. A row that does not
/// read as such a record is a fault of the storage.
pub fn decode_row(schema: &Schema, cells: Vec<Cell>) -> (record: Result<Model, StoreError>)
    ensures
        row_reads(*schema, cells@) ==> (record matches Ok(model) && model.id == row_identifier(
            cells@,
        ) && model.data@ == row_fields(*schema, cells@)),
        !row_reads(*schema, cells@) ==> record == Err::<Model, StoreError>(
            StoreError::StorageFault,
        ),
        record matches Ok(model) ==> conforms(*schema, model),
{
    proof {
        use_type_invariant(&schema.fields);
    }
    let n: usize = schema.fields.len();
    if cells.len() == 0 || cells.len() - 1 != n {
        return Err(StoreError::StorageFault);
    }
    let mut id: Option<i32> = None;
    let mut data: NameMap<FieldValue> = NameMap::new();
    let mut next: usize = 0;
    for cell in it: cells
        invariant
            it.seq() == cells@,
            cells@.len() == n + 1,
            n < usize::MAX,
            n == schema.fields@.len(),
            distinct_names(schema.fields@),
            next == it.index(),
            next > 0 ==> id == row_identifier(cells@) && id is Some,
            next == 0 ==> data@.len() == 0,
            next > 0 ==> data@ =~= row_fields(*schema, cells@).take(next - 1),
            forall|k: int|
                0 <= k < next - 1 ==> decoded((#[trigger] schema.fields@[k]).1, cells@[k + 1]) is Some,
    {
        if next == 0 {
            match cell {
                Cell::Integer(number) => {
                    if number >= -2147483648 && number <= 2147483647 {
                        id = Some(number as i32);
                    } else {
                        return Err(StoreError::StorageFault);
                    }
                },
                _ => {
                    return Err(StoreError::StorageFault);
                },
            }
        } else {
            let field_type = *schema.fields.value_at(next - 1);
            let name = schema.fields.name_at(next - 1).clone();
            match decode(field_type, cell) {
                Ok(value) => {
                    proof {
                        let before = data@;
                        assert(!has_name(before, name@)) by {
                            if has_name(before, name@) {
                                let p = choose|p: int|
                                    0 <= p < before.len() && (#[trigger] before[p]).0 == name@;
                                assert(before[p].0 == schema.fields@[p].0);
                                assert(schema.fields@[p].0 != schema.fields@[next - 1].0);
                            }
                        }
                        assert(with_entry(before, name@, value) =~= row_fields(
                            *schema,
                            cells@,
                        ).take(next as int));
                    }
                    data.insert(name, value);
                },
                Err(error) => {
                    assert(decoded(schema.fields@[next - 1].1, cells@[next as int]) is None);
                    return Err(error);
                },
            }
        }
        next = next + 1;
    }
    assert(row_fields(*schema, cells@).take(n as int) =~= row_fields(*schema, cells@));
    Ok(Model { id, data })
}

/// Whether every row reads as a record of `schema`.
pub open spec fn rows_read(schema: Schema, rows: Seq<Vec<Cell>>) -> bool {
    forall|i: int| 0 <= i < rows.len() ==> row_reads(schema, (#[trigger] rows[i])@)
}

/// Reads rows as records of `schema`: one record for each row, in the order
/// of the rows, each read as `decode_row` reads it. One row that does not
/// read as a record makes the whole a fault of the storage.
pub fn decode_rows(schema: &Schema, rows: Vec<Vec<Cell>>) -> (records: Result<
    Vec<Model>,
    StoreError,
>)
    ensures
        rows_read(*schema, rows@) ==> (records matches Ok(models) && models@.len() == rows@.len()
            && forall|i: int|
            0 <= i < rows@.len() ==> (#[trigger] models@[i]).id == row_identifier(rows@[i]@)
                && models@[i].data@ == row_fields(*schema, rows@[i]@)),
        !rows_read(*schema, rows@) ==> records == Err::<Vec<Model>, StoreError>(
            StoreError::StorageFault,
        ),
        records matches Ok(models) ==> forall|i: int|
            0 <= i < models@.len() ==> conforms(*schema, #[trigger] models@[i]),
{
    let mut models: Vec<Model> = Vec::new();
    for row in it: rows
        invariant
            it.seq() == rows@,
            models@.len() == it.index(),
            forall|i: int| 0 <= i < it.index() ==> row_reads(*schema, (#[trigger] rows@[i])@),
            forall|i: int|
                0 <= i < it.index() ==> (#[trigger] models@[i]).id == row_identifier(rows@[i]@)
                    && models@[i].data@ == row_fields(*schema, rows@[i]@),
            forall|i: int| 0 <= i < models@.len() ==> conforms(*schema, #[trigger] models@[i]),
    {
        match decode_row(schema, row) {
            Ok(model) => {
                models.push(model);
            },
            Err(error) => {
                return Err(error);
            },
        }
    }
    Ok(models)
}

/// Reads the first of the rows as a record of `schema`, as `decode_row`
/// reads it; `None` where there is no row. What follows the first row is
/// not looked at.
pub fn decode_first(schema: &Schema, rows: Vec<Vec<Cell>>) -> (record: Result<
    Option<Model>,
    StoreError,
>)
    ensures
        rows@.len() == 0 ==> record == Ok::<Option<Model>, StoreError>(None),
        rows@.len() > 0 && row_reads(*schema, rows@[0]@) ==> (record matches Ok(Some(model))
            && model.id == row_identifier(rows@[0]@) && model.data@ == row_fields(
            *schema,
            rows@[0]@,
        )),
        rows@.len() > 0 && !row_reads(*schema, rows@[0]@) ==> record == Err::<
            Option<Model>,
            StoreError,
        >(StoreError::StorageFault),
        record matches Ok(Some(model)) ==> conforms(*schema, model),
{
    let mut rows = rows;
    if rows.len() == 0 {
        return Ok(None);
    }
    let first = rows.swap_remove(0);
    match decode_row(schema, first) {
        Ok(model) => Ok(Some(model)),
        Err(error) => Err(error),
    }
}

} // verus!
