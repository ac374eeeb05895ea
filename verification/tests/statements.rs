use flexible_database::sql::{create_table, delete, insert, join, select_all, select_one, update, validate};
use flexible_database::{Cell, Command, FieldType, FieldValue, NameMap, Schema, StoreError};

fn person() -> Schema {
    let mut fields = NameMap::new();
    fields.insert("name".to_string(), FieldType::Text);
    fields.insert("age".to_string(), FieldType::Integer);
    fields.insert("height".to_string(), FieldType::Real);
    fields.insert("active".to_string(), FieldType::Boolean);
    Schema { name: "person".to_string(), fields }
}

fn bare() -> Schema {
    Schema { name: "bare".to_string(), fields: NameMap::new() }
}

fn record(entries: Vec<(&str, FieldValue)>) -> NameMap<FieldValue> {
    let mut data = NameMap::new();
    for (name, value) in entries {
        data.insert(name.to_string(), value);
    }
    data
}

fn strings(parts: &[&str]) -> Vec<String> {
    parts.iter().map(|part| part.to_string()).collect()
}

#[test]
fn joining_puts_the_separator_between_the_parts() {
    assert_eq!(join(&strings(&[]), ", "), "");
    assert_eq!(join(&strings(&["a"]), ", "), "a");
    assert_eq!(join(&strings(&["a", "b"]), ", "), "a, b");
    assert_eq!(join(&strings(&["a", "b", "c"]), "-"), "a-b-c");
    assert_eq!(join(&strings(&["a", "", "c"]), ","), "a,,c");
    assert_eq!(join(&strings(&["", ""]), ";"), ";");
    assert_eq!(join(&strings(&["a", "b"]), ""), "ab");
}

#[test]
fn each_kind_of_field_has_its_column_type() {
    assert_eq!(FieldType::Text.sql_type(), "TEXT");
    assert_eq!(FieldType::Integer.sql_type(), "INTEGER");
    assert_eq!(FieldType::Real.sql_type(), "REAL");
    assert_eq!(FieldType::Boolean.sql_type(), "INTEGER");
}

#[test]
fn the_table_has_an_identity_column_and_one_column_for_each_field() {
    let command = create_table(&person());
    assert_eq!(
        command.text,
        "CREATE TABLE IF NOT EXISTS person (id INTEGER PRIMARY KEY, name TEXT NOT NULL, \
         age INTEGER NOT NULL, height REAL NOT NULL, active INTEGER NOT NULL)"
    );
    assert_eq!(command.parameters, vec![]);
}

#[test]
fn the_table_of_a_schema_without_fields_has_the_identity_column_only() {
    let command = create_table(&bare());
    assert_eq!(command.text, "CREATE TABLE IF NOT EXISTS bare (id INTEGER PRIMARY KEY)");
    assert_eq!(command.parameters, vec![]);
}

#[test]
fn reading_selects_the_identifier_and_every_field_in_order() {
    assert_eq!(
        select_all(&person()),
        Command {
            text: "SELECT id, name, age, height, active FROM person".to_string(),
            parameters: vec![]
        }
    );
    assert_eq!(
        select_one(&person(), 7),
        Command {
            text: "SELECT id, name, age, height, active FROM person WHERE id = ?".to_string(),
            parameters: vec![Cell::Integer(7)]
        }
    );
    assert_eq!(
        select_one(&bare(), -1),
        Command {
            text: "SELECT id FROM bare WHERE id = ?".to_string(),
            parameters: vec![Cell::Integer(-1)]
        }
    );
    assert_eq!(select_all(&bare()).text, "SELECT id FROM bare");
}

#[test]
fn removing_binds_the_identifier() {
    assert_eq!(
        delete(&person(), i32::MIN),
        Command {
            text: "DELETE FROM person WHERE id = ?".to_string(),
            parameters: vec![Cell::Integer(-2147483648)]
        }
    );
}

#[test]
fn storing_names_the_fields_of_the_record_and_binds_their_values() {
    let data = record(vec![
        ("age", FieldValue::Integer(30)),
        ("name", FieldValue::Text("Alice".to_string())),
        ("active", FieldValue::Boolean(7)),
    ]);
    assert_eq!(
        insert(&person(), data),
        Ok(Command {
            text: "INSERT INTO person (age, name, active) VALUES (?, ?, ?)".to_string(),
            parameters: vec![
                Cell::Integer(30),
                Cell::Text("Alice".to_string()),
                Cell::Integer(7)
            ]
        })
    );
}

#[test]
fn storing_one_field_needs_no_separator() {
    let data = record(vec![("age", FieldValue::Integer(30))]);
    assert_eq!(
        insert(&person(), data),
        Ok(Command {
            text: "INSERT INTO person (age) VALUES (?)".to_string(),
            parameters: vec![Cell::Integer(30)]
        })
    );
}

#[test]
fn storing_no_field_asks_for_a_row_of_defaults() {
    assert_eq!(
        insert(&person(), NameMap::new()),
        Ok(Command { text: "INSERT INTO person DEFAULT VALUES".to_string(), parameters: vec![] })
    );
}

#[test]
fn a_value_never_goes_into_the_text() {
    let data = record(vec![("name", FieldValue::Text("x'); DROP TABLE person; --".to_string()))]);
    let command = insert(&person(), data).unwrap();
    assert_eq!(command.text, "INSERT INTO person (name) VALUES (?)");
    assert_eq!(command.parameters, vec![Cell::Text("x'); DROP TABLE person; --".to_string())]);
}

#[test]
fn updating_assigns_the_fields_of_the_record_and_binds_the_identifier_last() {
    let data = record(vec![
        ("name", FieldValue::Text("Bob".to_string())),
        ("age", FieldValue::Integer(31)),
    ]);
    assert_eq!(
        update(&person(), 9, data),
        Ok(Some(Command {
            text: "UPDATE person SET name = ?, age = ? WHERE id = ?".to_string(),
            parameters: vec![Cell::Text("Bob".to_string()), Cell::Integer(31), Cell::Integer(9)]
        }))
    );
    let one = record(vec![("active", FieldValue::Boolean(0))]);
    assert_eq!(
        update(&person(), 1, one),
        Ok(Some(Command {
            text: "UPDATE person SET active = ? WHERE id = ?".to_string(),
            parameters: vec![Cell::Integer(0), Cell::Integer(1)]
        }))
    );
}

#[test]
fn updating_no_field_plans_nothing() {
    assert_eq!(update(&person(), 9, NameMap::new()), Ok(None));
    assert_eq!(update(&bare(), 9, NameMap::new()), Ok(None));
}

#[test]
fn the_first_undeclared_field_is_named() {
    let data = record(vec![
        ("name", FieldValue::Text("Bob".to_string())),
        ("shoe", FieldValue::Integer(42)),
        ("hat", FieldValue::Integer(7)),
    ]);
    let unknown = Err(StoreError::UnknownField("shoe".to_string()));
    assert_eq!(validate(&person(), &data), unknown);
    assert_eq!(insert(&person(), data.clone()), Err(StoreError::UnknownField("shoe".to_string())));
    assert_eq!(update(&person(), 1, data), Err(StoreError::UnknownField("shoe".to_string())));
    let any = record(vec![("id", FieldValue::Integer(1))]);
    assert_eq!(insert(&bare(), any), Err(StoreError::UnknownField("id".to_string())));
}

#[test]
fn field_names_are_matched_exactly() {
    let data = record(vec![("Name", FieldValue::Text("Bob".to_string()))]);
    assert_eq!(validate(&person(), &data), Err(StoreError::UnknownField("Name".to_string())));
    let spaced = record(vec![("name ", FieldValue::Text("Bob".to_string()))]);
    assert_eq!(validate(&person(), &spaced), Err(StoreError::UnknownField("name ".to_string())));
}

#[test]
fn a_value_must_be_of_the_kind_of_its_field() {
    let text_for_integer = record(vec![("age", FieldValue::Text("30".to_string()))]);
    assert_eq!(validate(&person(), &text_for_integer), Err(StoreError::ConstraintViolation));
    let integer_for_boolean = record(vec![("active", FieldValue::Integer(1))]);
    assert_eq!(validate(&person(), &integer_for_boolean), Err(StoreError::ConstraintViolation));
    let boolean_for_integer = record(vec![("age", FieldValue::Boolean(1))]);
    assert_eq!(insert(&person(), boolean_for_integer), Err(StoreError::ConstraintViolation));
    let integer_for_real = record(vec![("height", FieldValue::Integer(2))]);
    assert_eq!(update(&person(), 1, integer_for_real), Err(StoreError::ConstraintViolation));
    let late = record(vec![
        ("name", FieldValue::Text("Bob".to_string())),
        ("age", FieldValue::Integer(1)),
        ("active", FieldValue::Text("yes".to_string())),
    ]);
    assert_eq!(validate(&person(), &late), Err(StoreError::ConstraintViolation));
}

#[test]
fn a_record_of_declared_fields_with_values_of_their_kinds_passes() {
    let data = record(vec![
        ("active", FieldValue::Boolean(-1)),
        ("name", FieldValue::Text(String::new())),
    ]);
    assert_eq!(validate(&person(), &data), Ok(()));
    assert_eq!(validate(&person(), &NameMap::new()), Ok(()));
    assert_eq!(validate(&bare(), &NameMap::new()), Ok(()));
}

#[test]
fn the_names_of_a_schema_are_validated_in_order() {
    assert_eq!(person().validate_names(), Ok(()));
    assert_eq!(bare().validate_names(), Ok(()));
    let mut fields = NameMap::new();
    fields.insert("fine".to_string(), FieldType::Text);
    fields.insert("2nd".to_string(), FieldType::Text);
    fields.insert("3 rd".to_string(), FieldType::Text);
    let schema = Schema { name: "t".to_string(), fields: fields.clone() };
    assert_eq!(schema.validate_names(), Err(StoreError::InvalidName("2nd".to_string())));
    let unnamed = Schema { name: String::new(), fields };
    assert_eq!(unnamed.validate_names(), Err(StoreError::InvalidName(String::new())));
}
