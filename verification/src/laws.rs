//! What holds of the store's rules as a whole.

use crate::name_map::{bound_value, distinct_names, has_name, lemma_position_unique, with_entry};
use crate::schema::{FieldType, Schema};
use crate::error::StoreErrorView;
use crate::table::{describes, table_agrees};
use crate::sql::{first_undeclared, lemma_all_declared, names_of, rejection, well_typed};
use crate::value::{
    canonical, conforms, decoded, row_fields, row_identifier, row_reads, Cell, FieldValue, Model,
};
use vstd::prelude::*;

verus! {

/// What is handed to the storage engine for a value reads back, under the
/// kind of field that the value is tagged with, as the same value, a Boolean
/// in canonical form.
pub proof fn lemma_value_reads_back(value: FieldValue)
    ensures
        decoded(value.field_type(), value.cell()) == Some(value.normalized()),
        value.normalized().normalized() == value.normalized(),
        value.normalized().field_type() == value.field_type(),
{
}

/// A Boolean that is held as any integer but zero reads back as the
/// canonical true, and one that is held as zero as false.
pub proof fn lemma_boolean_reads_canonical(stored: i64)
    ensures
        stored != 0 ==> decoded(FieldType::Boolean, Cell::Integer(stored)) == Some(
            FieldValue::Boolean(1),
        ),
        stored == 0 ==> decoded(FieldType::Boolean, Cell::Integer(stored)) == Some(
            FieldValue::Boolean(0),
        ),
        decoded(FieldType::Boolean, FieldValue::Boolean(stored).cell()) == Some(
            FieldValue::Boolean(canonical(stored)),
        ),
{
}

/// The name that `first_undeclared` finds is one of the names, and the
/// schema does not declare it.
pub proof fn lemma_first_undeclared(schema: Schema, names: Seq<Seq<char>>)
    ensures
        first_undeclared(schema, names) matches Some(name) ==> !schema.declares(name)
            && names.contains(name),
    decreases names.len(),
{
    if names.len() > 0 {
        if schema.declares(names[0]) {
            let rest = names.drop_first();
            lemma_first_undeclared(schema, rest);
            if let Some(name) = first_undeclared(schema, rest) {
                let k = choose|k: int| 0 <= k < rest.len() && rest[k] == name;
                assert(names[k + 1] == name);
            }
        } else {
            assert(names[0] == names[0]);
        }
    }
}

/// A record with a field that the schema does not declare is always
/// refused, as a whole, with a field of the record that the schema does not
/// declare, whatever else the record holds.
pub proof fn lemma_undeclared_field_is_refused(
    schema: Schema,
    data: Seq<(Seq<char>, FieldValue)>,
    i: int,
)
    requires
        0 <= i < data.len(),
        !schema.declares(data[i].0),
    ensures
        rejection(schema, data) matches Some(StoreErrorView::UnknownField(name))
            && !schema.declares(name) && names_of(data).contains(name),
{
    let names = names_of(data);
    lemma_all_declared(schema, names);
    assert(names[i] == data[i].0);
    lemma_first_undeclared(schema, names);
}

/// A record is written exactly where the schema declares each of its fields
/// and each value is of the kind of its field.
pub proof fn lemma_accepted_records(schema: Schema, data: Seq<(Seq<char>, FieldValue)>)
    ensures
        rejection(schema, data) is None <==> (forall|i: int|
            0 <= i < data.len() ==> schema.declares((#[trigger] data[i]).0)) && well_typed(
            schema,
            data,
        ),
{
    let names = names_of(data);
    lemma_all_declared(schema, names);
    if first_undeclared(schema, names) is None {
        assert forall|i: int| 0 <= i < data.len() implies schema.declares(
            (#[trigger] data[i]).0,
        ) by {
            assert(names[i] == data[i].0);
        }
    } else {
        let k = choose|k: int| 0 <= k < names.len() && !schema.declares(#[trigger] names[k]);
        assert(names[k] == data[k].0);
    }
}

/// Every field of the schema has a value in the record.
pub open spec fn fully_populated(schema: Schema, data: Seq<(Seq<char>, FieldValue)>) -> bool {
    forall|k: int|
        0 <= k < schema.fields@.len() ==> has_name(data, (#[trigger] schema.fields@[k]).0)
}

/// The row that holds a record once it is stored under the identifier `id`:
/// the identifier, then for each field of the schema, in order, what was
/// handed over for the value of that field.
pub open spec fn stored_row(schema: Schema, data: Seq<(Seq<char>, FieldValue)>, id: i32) -> Seq<
    Cell,
> {
    seq![Cell::Integer(id as i64)] + Seq::new(
        schema.fields@.len(),
        |k: int| bound_value(data, schema.fields@[k].0).cell(),
    )
}

/// A record that has a value of the right kind for every field of its
/// schema, and no other field, reads back from the row that holds it as a
/// record with the same identifier and the same fields, each with the value
/// that was stored, a Boolean in canonical form.
pub proof fn lemma_stored_record_reads_back(
    schema: Schema,
    data: Seq<(Seq<char>, FieldValue)>,
    id: i32,
)
    requires
        schema.fields.well_formed(),
        distinct_names(data),
        first_undeclared(schema, names_of(data)) is None,
        well_typed(schema, data),
        fully_populated(schema, data),
    ensures
        row_reads(schema, stored_row(schema, data, id)),
        row_identifier(stored_row(schema, data, id)) == Some(id),
        forall|name: Seq<char>|
            has_name(data, name) <==> has_name(
                row_fields(schema, stored_row(schema, data, id)),
                name,
            ),
        forall|name: Seq<char>|
            has_name(data, name) ==> bound_value(
                row_fields(schema, stored_row(schema, data, id)),
                name,
            ) == bound_value(data, name).normalized(),
{
    let row = stored_row(schema, data, id);
    let fields = schema.fields@;
    let read = row_fields(schema, row);
    lemma_all_declared(schema, names_of(data));
    assert forall|k: int| 0 <= k < fields.len() implies decoded(
        (#[trigger] fields[k]).1,
        row[k + 1],
    ) == Some(bound_value(data, fields[k].0).normalized()) by {
        let name = fields[k].0;
        assert(has_name(data, name));
        let p = choose|p: int| 0 <= p < data.len() && (#[trigger] data[p]).0 == name;
        lemma_position_unique(data, p);
        lemma_position_unique(fields, k);
        assert(schema.declares(data[p].0));
        assert(data[p].1.field_type() == schema.fields.value_of(data[p].0));
        lemma_value_reads_back(data[p].1);
    }
    assert(distinct_names(read)) by {
        assert forall|i: int, j: int| 0 <= i < j < read.len() implies (#[trigger] read[i]).0 != (
        #[trigger] read[j]).0 by {
            assert(fields[i].0 != fields[j].0);
        }
    }
    assert forall|name: Seq<char>| has_name(data, name) implies has_name(read, name)
        && bound_value(read, name) == bound_value(data, name).normalized() by {
        let p = choose|p: int| 0 <= p < data.len() && (#[trigger] data[p]).0 == name;
        assert(names_of(data)[p] == name);
        assert(schema.declares(name));
        let k = choose|k: int| 0 <= k < fields.len() && (#[trigger] fields[k]).0 == name;
        assert(read[k].0 == name);
        lemma_position_unique(read, k);
    }
    assert forall|name: Seq<char>| has_name(read, name) implies has_name(data, name) by {
        let k = choose|k: int| 0 <= k < read.len() && (#[trigger] read[k]).0 == name;
        assert(fields[k].0 == name);
    }
}

/// A row that reads as a record of a schema gives a record that conforms to
/// the schema: it has an identifier and every declared field, each with a
/// value of the kind of the field, each Boolean in canonical form.
pub proof fn lemma_read_record_conforms(schema: Schema, cells: Seq<Cell>, model: Model)
    requires
        row_reads(schema, cells),
        model.id == row_identifier(cells),
        model.data@ == row_fields(schema, cells),
    ensures
        conforms(schema, model),
{
    let data = model.data@;
    assert forall|k: int| 0 <= k < schema.fields@.len() implies {
        &&& (#[trigger] data[k]).0 == schema.fields@[k].0
        &&& data[k].1.field_type() == schema.fields@[k].1
        &&& data[k].1.normalized() == data[k].1
    } by {
        assert(decoded(schema.fields@[k].1, cells[k + 1]) is Some);
    }
}

/// Defining a schema a second time leaves the registry as the first
/// definition left it.
pub proof fn lemma_define_twice(registry: Seq<(Seq<char>, Schema)>, schema: Schema)
    requires
        distinct_names(registry),
    ensures
        with_entry(with_entry(registry, schema.name@, schema), schema.name@, schema) == with_entry(
            registry,
            schema.name@,
            schema,
        ),
{
    let name = schema.name@;
    let once = with_entry(registry, name, schema);
    crate::name_map::lemma_with_entry_distinct(registry, name, schema);
    let p = crate::name_map::position(once, name);
    assert(once[p].0 == name);
    assert(once[p].1 == schema);
    assert(with_entry(once, name, schema) =~= once);
}

/// In a row that reads as a record, a Boolean field has the canonical form
/// of the integer that the row holds for it, whatever that integer is.
pub proof fn lemma_boolean_field_reads_canonical(
    schema: Schema,
    cells: Seq<Cell>,
    k: int,
    stored: i64,
)
    requires
        0 <= k < schema.fields@.len(),
        schema.fields@[k].1 == FieldType::Boolean,
        cells.len() == schema.fields@.len() + 1,
        cells[k + 1] == Cell::Integer(stored),
    ensures
        row_fields(schema, cells)[k] == (
            schema.fields@[k].0,
            FieldValue::Boolean(canonical(stored)),
        ),
        stored != 0 ==> row_fields(schema, cells)[k].1 == FieldValue::Boolean(1),
        stored == 0 ==> row_fields(schema, cells)[k].1 == FieldValue::Boolean(0),
{
}

/// A table that is described with the identity column and then, for each
/// field of the schema in order, a column of the field's name and of the
/// type of its kind that must be filled, is the table of the schema. This
/// is the table that the definition of the schema asks for, so a second
/// definition finds the table of the first in agreement.
pub proof fn lemma_defined_table_agrees(schema: Schema, rows: Seq<Vec<Cell>>)
    requires
        rows.len() == schema.fields@.len() + 1,
        describes(rows[0]@, "id"@, "INTEGER"@, false, true),
        forall|k: int|
            0 <= k < schema.fields@.len() ==> describes(
                (#[trigger] rows[k + 1])@,
                schema.fields@[k].0,
                schema.fields@[k].1.column_type(),
                true,
                false,
            ),
    ensures
        table_agrees(schema, rows),
{
    assert forall|k: int| 0 <= k < schema.fields@.len() implies crate::table::described(
        rows,
        (#[trigger] schema.fields@[k]).0,
        schema.fields@[k].1.column_type(),
        true,
        false,
    ) by {
        assert(describes(
            rows[k + 1]@,
            schema.fields@[k].0,
            schema.fields@[k].1.column_type(),
            true,
            false,
        ));
    }
}

} // verus!
