//! Whether the table that the storage engine holds is the one that a schema
//! asks for.

use crate::names::{matches_word, same_word};
use crate::schema::Schema;
use crate::value::Cell;
use vstd::prelude::*;

verus! {

/// The number of cells in one row of the engine's description of a table.
pub const DESCRIPTION_CELLS: usize = 6;

/// Whether a row of the engine's description of a table describes a column
/// of this name and type, the case of letters aside, which must be filled
/// or need not, and holds the identity or does not. Such a row holds six
/// cells: the name is the second, the type the third, whether the column
/// must be filled the fourth, whether it belongs to the key the last.
pub open spec fn describes(
    row: Seq<Cell>,
    name: Seq<char>,
    column_type: Seq<char>,
    required: bool,
    identity: bool,
) -> bool {
    &&& row.len() == DESCRIPTION_CELLS
    &&& row[1] matches Cell::Text(found) && same_word(found@, name)
    &&& row[2] matches Cell::Text(found) && same_word(found@, column_type)
    &&& row[3] matches Cell::Integer(flag) && (flag != 0) == required
    &&& row[5] matches Cell::Integer(flag) && (flag != 0) == identity
}

/// Whether some row describes such a column.
pub open spec fn described(
    rows: Seq<Vec<Cell>>,
    name: Seq<char>,
    column_type: Seq<char>,
    required: bool,
    identity: bool,
) -> bool {
    exists|i: int|
        0 <= i < rows.len() && describes((#[trigger] rows[i])@, name, column_type, required, identity)
}

/// Whether the described table is the table of `schema`: it has as many
/// columns as the schema has fields and one more, among them the identity
/// column and, for each field, a column of its name and of the type of its
/// kind that must be filled. The order of the columns does not count.
pub open spec fn table_agrees(schema: Schema, rows: Seq<Vec<Cell>>) -> bool {
    &&& rows.len() == schema.fields@.len() + 1
    &&& described(rows, "id"@, "INTEGER"@, false, true)
    &&& forall|k: int|
        0 <= k < schema.fields@.len() ==> described(
            rows,
            (#[trigger] schema.fields@[k]).0,
            schema.fields@[k].1.column_type(),
            true,
            false,
        )
}

/// Decides whether a row describes such a column.
pub fn row_describes(
    row: &Vec<Cell>,
    name: &str,
    column_type: &str,
    required: bool,
    identity: bool,
) -> (found: bool)
    ensures
        found == describes(row@, name@, column_type@, required, identity),
{
    if row.len() != DESCRIPTION_CELLS {
        return false;
    }
    let named = match &row[1] {
        Cell::Text(found) => matches_word(found.as_str(), name),
        _ => false,
    };
    let typed = match &row[2] {
        Cell::Text(found) => matches_word(found.as_str(), column_type),
        _ => false,
    };
    let filled = match &row[3] {
        Cell::Integer(flag) => (*flag != 0) == required,
        _ => false,
    };
    let keyed = match &row[5] {
        Cell::Integer(flag) => (*flag != 0) == identity,
        _ => false,
    };
    named && typed && filled && keyed
}

/// Decides whether some row describes such a column.
pub fn some_row_describes(
    rows: &Vec<Vec<Cell>>,
    name: &str,
    column_type: &str,
    required: bool,
    identity: bool,
) -> (found: bool)
    ensures
        found == described(rows@, name@, column_type@, required, identity),
{
    let mut i: usize = 0;
    while i < rows.len()
        invariant
            i <= rows@.len(),
            forall|j: int|
                0 <= j < i ==> !describes(
                    (#[trigger] rows@[j])@,
                    name@,
                    column_type@,
                    required,
                    identity,
                ),
        decreases rows@.len() - i,
    {
        if row_describes(&rows[i], name, column_type, required, identity) {
            return true;
        }
        i = i + 1;
    }
    false
}

/// Decides whether the described table is the table of `schema`.
pub fn agrees(schema: &Schema, rows: &Vec<Vec<Cell>>) -> (agreed: bool)
    ensures
        agreed == table_agrees(*schema, rows@),
{
    let n: usize = schema.fields.len();
    if rows.len() == 0 || rows.len() - 1 != n {
        return false;
    }
    if !some_row_describes(rows, "id", "INTEGER", false, true) {
        return false;
    }
    let mut k: usize = 0;
    while k < n
        invariant
            n == schema.fields@.len(),
            k <= n,
            forall|j: int|
                0 <= j < k ==> described(
                    rows@,
                    (#[trigger] schema.fields@[j]).0,
                    schema.fields@[j].1.column_type(),
                    true,
                    false,
                ),
        decreases n - k,
    {
        let name = schema.fields.name_at(k);
        let field_type = *schema.fields.value_at(k);
        if !some_row_describes(rows, name.as_str(), field_type.sql_type(), true, false) {
            return false;
        }
        k = k + 1;
    }
    true
}

} // verus!
