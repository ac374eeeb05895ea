//! Statement text is harmless: with the names of a safe schema it holds
//! nothing but name characters and the few marks of the statements
//! themselves, so no name can end a statement or start another.

use crate::names::{is_identifier, is_name_char};
use crate::schema::{lemma_safe_names, FieldType, Schema};
use crate::sql::{
    assignments, column_definition, column_definitions, create_table_text, delete_text,
    describe_text, insert_text, joined, placeholders, select_all_text, select_one_text,
    selected_columns, update_text,
};
use vstd::prelude::*;

verus! {

/// The characters that statement text is made of: name characters, the
/// space, and the marks `(`, `)`, `,`, `=` and `?`.
pub open spec fn is_statement_char(c: char) -> bool {
    is_name_char(c) || c == ' ' || c == '(' || c == ')' || c == ',' || c == '=' || c == '?'
}

/// The text holds statement characters only: no quote, no semicolon, no
/// comment mark.
pub open spec fn harmless(text: Seq<char>) -> bool {
    forall|i: int| 0 <= i < text.len() ==> is_statement_char(#[trigger] text[i])
}

/// Every part is harmless.
pub open spec fn all_harmless(parts: Seq<Seq<char>>) -> bool {
    forall|i: int| 0 <= i < parts.len() ==> harmless(#[trigger] parts[i])
}

/// Two harmless texts, one after the other, are harmless.
pub proof fn lemma_harmless_concat(first: Seq<char>, second: Seq<char>)
    requires
        harmless(first),
        harmless(second),
    ensures
        harmless(first + second),
{
    let both = first + second;
    assert forall|i: int| 0 <= i < both.len() implies is_statement_char(#[trigger] both[i]) by {
        if i < first.len() {
            assert(both[i] == first[i]);
        } else {
            assert(both[i] == second[i - first.len()]);
        }
    }
}

/// Harmless parts joined by a harmless separator are harmless.
pub proof fn lemma_harmless_joined(parts: Seq<Seq<char>>, separator: Seq<char>)
    requires
        all_harmless(parts),
        harmless(separator),
    ensures
        harmless(joined(parts, separator)),
    decreases parts.len(),
{
    if parts.len() == 1 {
        assert(harmless(parts[0]));
    } else if parts.len() > 1 {
        let front = parts.drop_last();
        assert forall|i: int| 0 <= i < front.len() implies harmless(#[trigger] front[i]) by {
            assert(front[i] == parts[i]);
        }
        lemma_harmless_joined(front, separator);
        assert(harmless(parts.last()));
        lemma_harmless_concat(joined(front, separator), separator);
        lemma_harmless_concat(joined(front, separator) + separator, parts.last());
    }
}

/// The fixed words of the statements are harmless.
proof fn lemma_words_harmless()
    ensures
        harmless("CREATE TABLE IF NOT EXISTS "@),
        harmless(" ("@),
        harmless(", "@),
        harmless(")"@),
        harmless("id INTEGER PRIMARY KEY"@),
        harmless(" "@),
        harmless(" NOT NULL"@),
        harmless("SELECT "@),
        harmless("id"@),
        harmless(" FROM "@),
        harmless(" WHERE id = ?"@),
        harmless("INSERT INTO "@),
        harmless(" DEFAULT VALUES"@),
        harmless(") VALUES ("@),
        harmless("?"@),
        harmless("UPDATE "@),
        harmless(" SET "@),
        harmless(" = ?"@),
        harmless("DELETE FROM "@),
        harmless("PRAGMA table_info("@),
{
    reveal_strlit("CREATE TABLE IF NOT EXISTS ");
    reveal_strlit(" (");
    reveal_strlit(", ");
    reveal_strlit(")");
    reveal_strlit("id INTEGER PRIMARY KEY");
    reveal_strlit(" ");
    reveal_strlit(" NOT NULL");
    reveal_strlit("SELECT ");
    reveal_strlit("id");
    reveal_strlit(" FROM ");
    reveal_strlit(" WHERE id = ?");
    reveal_strlit("INSERT INTO ");
    reveal_strlit(" DEFAULT VALUES");
    reveal_strlit(") VALUES (");
    reveal_strlit("?");
    reveal_strlit("UPDATE ");
    reveal_strlit(" SET ");
    reveal_strlit(" = ?");
    reveal_strlit("DELETE FROM ");
    reveal_strlit("PRAGMA table_info(");
}

/// The type of every column is harmless.
proof fn lemma_column_type_harmless(field_type: FieldType)
    ensures
        harmless(field_type.column_type()),
{
    reveal_strlit("TEXT");
    reveal_strlit("INTEGER");
    reveal_strlit("REAL");
}

/// The statement that provides the table of a safe schema is harmless.
pub proof fn lemma_create_table_harmless(schema: Schema)
    requires
        schema.safe(),
    ensures
        harmless(create_table_text(schema)),
{
    lemma_words_harmless();
    lemma_safe_names(schema);
    let definitions = column_definitions(schema);
    assert forall|i: int| 0 <= i < definitions.len() implies harmless(
        #[trigger] definitions[i],
    ) by {
        if i > 0 {
            let name = schema.fields@[i - 1].0;
            let field_type = schema.fields@[i - 1].1;
            assert(definitions[i] == column_definition(name, field_type));
            assert(is_identifier(name));
            lemma_column_type_harmless(field_type);
            lemma_harmless_concat(name, " "@);
            lemma_harmless_concat(name + " "@, field_type.column_type());
            lemma_harmless_concat(name + " "@ + field_type.column_type(), " NOT NULL"@);
        }
    }
    lemma_harmless_joined(definitions, ", "@);
    let head = "CREATE TABLE IF NOT EXISTS "@;
    lemma_harmless_concat(head, schema.name@);
    lemma_harmless_concat(head + schema.name@, " ("@);
    lemma_harmless_concat(head + schema.name@ + " ("@, joined(definitions, ", "@));
    lemma_harmless_concat(head + schema.name@ + " ("@ + joined(definitions, ", "@), ")"@);
}

/// The statements that read the records of a safe schema are harmless.
pub proof fn lemma_select_harmless(schema: Schema)
    requires
        schema.safe(),
    ensures
        harmless(select_all_text(schema)),
        harmless(select_one_text(schema)),
{
    lemma_words_harmless();
    lemma_safe_names(schema);
    let columns = selected_columns(schema);
    assert forall|i: int| 0 <= i < columns.len() implies harmless(#[trigger] columns[i]) by {
        if i > 0 {
            assert(columns[i] == schema.fields@[i - 1].0);
            assert(is_identifier(schema.fields@[i - 1].0));
        }
    }
    lemma_harmless_joined(columns, ", "@);
    let listed = joined(columns, ", "@);
    lemma_harmless_concat("SELECT "@, listed);
    lemma_harmless_concat("SELECT "@ + listed, " FROM "@);
    lemma_harmless_concat("SELECT "@ + listed + " FROM "@, schema.name@);
    lemma_harmless_concat(select_all_text(schema), " WHERE id = ?"@);
}

/// The statement that removes a record of a safe schema is harmless.
pub proof fn lemma_delete_harmless(schema: Schema)
    requires
        schema.safe(),
    ensures
        harmless(delete_text(schema.name@)),
{
    lemma_words_harmless();
    lemma_safe_names(schema);
    lemma_harmless_concat("DELETE FROM "@, schema.name@);
    lemma_harmless_concat("DELETE FROM "@ + schema.name@, " WHERE id = ?"@);
}

/// The statement that asks for the description of the table of a safe
/// schema is harmless.
pub proof fn lemma_describe_harmless(schema: Schema)
    requires
        schema.safe(),
    ensures
        harmless(describe_text(schema.name@)),
{
    lemma_words_harmless();
    lemma_safe_names(schema);
    lemma_harmless_concat("PRAGMA table_info("@, schema.name@);
    lemma_harmless_concat("PRAGMA table_info("@ + schema.name@, ")"@);
}

/// Every name that a safe schema declares is an identifier.
pub proof fn lemma_declared_names_are_identifiers(schema: Schema, names: Seq<Seq<char>>)
    requires
        schema.safe(),
        forall|i: int| 0 <= i < names.len() ==> schema.declares(#[trigger] names[i]),
    ensures
        forall|i: int| 0 <= i < names.len() ==> is_identifier(#[trigger] names[i]),
{
    lemma_safe_names(schema);
    assert forall|i: int| 0 <= i < names.len() implies is_identifier(#[trigger] names[i]) by {
        assert(schema.declares(names[i]));
        let k = choose|k: int|
            0 <= k < schema.fields@.len() && (#[trigger] schema.fields@[k]).0 == names[i];
        assert(is_identifier(schema.fields@[k].0));
    }
}

/// The statement that stores a record under a safe schema is harmless,
/// whatever the values of the record, where the schema declares every field
/// of the record.
pub proof fn lemma_insert_harmless(schema: Schema, names: Seq<Seq<char>>)
    requires
        schema.safe(),
        forall|i: int| 0 <= i < names.len() ==> schema.declares(#[trigger] names[i]),
    ensures
        harmless(insert_text(schema.name@, names)),
{
    lemma_words_harmless();
    lemma_safe_names(schema);
    lemma_declared_names_are_identifiers(schema, names);
    let table = schema.name@;
    lemma_harmless_concat("INSERT INTO "@, table);
    if names.len() == 0 {
        lemma_harmless_concat("INSERT INTO "@ + table, " DEFAULT VALUES"@);
    } else {
        assert(all_harmless(names)) by {
            assert forall|i: int| 0 <= i < names.len() implies harmless(#[trigger] names[i]) by {
                assert(is_identifier(names[i]));
            }
        }
        let marks = placeholders(names.len());
        assert(all_harmless(marks));
        lemma_harmless_joined(names, ", "@);
        lemma_harmless_joined(marks, ", "@);
        let a = "INSERT INTO "@ + table;
        lemma_harmless_concat(a, " ("@);
        lemma_harmless_concat(a + " ("@, joined(names, ", "@));
        lemma_harmless_concat(a + " ("@ + joined(names, ", "@), ") VALUES ("@);
        lemma_harmless_concat(
            a + " ("@ + joined(names, ", "@) + ") VALUES ("@,
            joined(marks, ", "@),
        );
        lemma_harmless_concat(
            a + " ("@ + joined(names, ", "@) + ") VALUES ("@ + joined(marks, ", "@),
            ")"@,
        );
    }
}

/// The statement that gives fields of a record of a safe schema new values
/// is harmless, whatever the values, where the schema declares every field
/// that is named.
pub proof fn lemma_update_harmless(schema: Schema, names: Seq<Seq<char>>)
    requires
        schema.safe(),
        forall|i: int| 0 <= i < names.len() ==> schema.declares(#[trigger] names[i]),
    ensures
        harmless(update_text(schema.name@, names)),
{
    lemma_words_harmless();
    lemma_safe_names(schema);
    lemma_declared_names_are_identifiers(schema, names);
    let table = schema.name@;
    let sets = assignments(names);
    assert forall|i: int| 0 <= i < sets.len() implies harmless(#[trigger] sets[i]) by {
        assert(is_identifier(names[i]));
        lemma_harmless_concat(names[i], " = ?"@);
    }
    lemma_harmless_joined(sets, ", "@);
    lemma_harmless_concat("UPDATE "@, table);
    lemma_harmless_concat("UPDATE "@ + table, " SET "@);
    lemma_harmless_concat("UPDATE "@ + table + " SET "@, joined(sets, ", "@));
    lemma_harmless_concat(
        "UPDATE "@ + table + " SET "@ + joined(sets, ", "@),
        " WHERE id = ?"@,
    );
}

} // verus!
