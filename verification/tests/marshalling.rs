use flexible_database::value::{decode, decode_first, decode_row, decode_rows};
use flexible_database::{Cell, FieldType, FieldValue, Model, NameMap, Schema, StoreError};
use rusqlite::types::Value;

fn carried(x: f64) -> flexible_database::Real {
    match FieldValue::from_sql(FieldType::Real, Value::Real(x)) {
        Ok(FieldValue::Real(number)) => number,
        other => panic!("not a real: {:?}", other),
    }
}

fn person() -> Schema {
    let mut fields = NameMap::new();
    fields.insert("name".to_string(), FieldType::Text);
    fields.insert("age".to_string(), FieldType::Integer);
    fields.insert("height".to_string(), FieldType::Real);
    fields.insert("active".to_string(), FieldType::Boolean);
    Schema { name: "person".to_string(), fields }
}

fn row(id: Cell, active: Cell) -> Vec<Cell> {
    vec![id, Cell::Text("Alice".to_string()), Cell::Integer(30), Cell::Real(carried(1.75)), active]
}

#[test]
fn each_value_is_tagged_with_its_kind() {
    assert_eq!(FieldValue::Text("x".to_string()).kind(), FieldType::Text);
    assert_eq!(FieldValue::Integer(1).kind(), FieldType::Integer);
    assert_eq!(FieldValue::Real(carried(1.0)).kind(), FieldType::Real);
    assert_eq!(FieldValue::Boolean(1).kind(), FieldType::Boolean);
}

#[test]
fn each_value_is_handed_over_as_a_cell_of_its_own() {
    assert_eq!(FieldValue::Text("x".to_string()).into_cell(), Cell::Text("x".to_string()));
    assert_eq!(FieldValue::Integer(-4).into_cell(), Cell::Integer(-4));
    assert_eq!(FieldValue::Real(carried(0.5)).into_cell(), Cell::Real(carried(0.5)));
    assert_eq!(FieldValue::Boolean(1).into_cell(), Cell::Integer(1));
    assert_eq!(FieldValue::Boolean(0).into_cell(), Cell::Integer(0));
    assert_eq!(FieldValue::Boolean(7).into_cell(), Cell::Integer(7));
}

#[test]
fn a_cell_of_the_kind_of_the_field_reads_as_its_value() {
    assert_eq!(
        decode(FieldType::Text, Cell::Text("x".to_string())),
        Ok(FieldValue::Text("x".to_string()))
    );
    assert_eq!(decode(FieldType::Integer, Cell::Integer(i64::MAX)), Ok(FieldValue::Integer(i64::MAX)));
    assert_eq!(
        decode(FieldType::Real, Cell::Real(carried(2.5))),
        Ok(FieldValue::Real(carried(2.5)))
    );
}

#[test]
fn a_boolean_reads_in_canonical_form() {
    assert_eq!(decode(FieldType::Boolean, Cell::Integer(0)), Ok(FieldValue::Boolean(0)));
    assert_eq!(decode(FieldType::Boolean, Cell::Integer(1)), Ok(FieldValue::Boolean(1)));
    assert_eq!(decode(FieldType::Boolean, Cell::Integer(2)), Ok(FieldValue::Boolean(1)));
    assert_eq!(decode(FieldType::Boolean, Cell::Integer(-1)), Ok(FieldValue::Boolean(1)));
    assert_eq!(decode(FieldType::Boolean, Cell::Integer(i64::MIN)), Ok(FieldValue::Boolean(1)));
    assert_eq!(decode(FieldType::Boolean, Cell::Integer(1 << 40)), Ok(FieldValue::Boolean(1)));
}

#[test]
fn a_cell_of_another_kind_is_a_fault() {
    let fault = Err(StoreError::StorageFault);
    assert_eq!(decode(FieldType::Text, Cell::Integer(1)), fault);
    assert_eq!(decode(FieldType::Text, Cell::Null), fault);
    assert_eq!(decode(FieldType::Text, Cell::Blob(vec![120])), fault);
    assert_eq!(decode(FieldType::Text, Cell::Real(carried(1.0))), fault);
    assert_eq!(decode(FieldType::Integer, Cell::Text("1".to_string())), fault);
    assert_eq!(decode(FieldType::Integer, Cell::Real(carried(1.0))), fault);
    assert_eq!(decode(FieldType::Integer, Cell::Null), fault);
    assert_eq!(decode(FieldType::Integer, Cell::Blob(vec![])), fault);
    assert_eq!(decode(FieldType::Real, Cell::Integer(1)), fault);
    assert_eq!(decode(FieldType::Real, Cell::Text("1.5".to_string())), fault);
    assert_eq!(decode(FieldType::Real, Cell::Null), fault);
    assert_eq!(decode(FieldType::Real, Cell::Blob(vec![0])), fault);
    assert_eq!(decode(FieldType::Boolean, Cell::Text("true".to_string())), fault);
    assert_eq!(decode(FieldType::Boolean, Cell::Real(carried(1.0))), fault);
    assert_eq!(decode(FieldType::Boolean, Cell::Null), fault);
    assert_eq!(decode(FieldType::Boolean, Cell::Blob(vec![1])), fault);
}

#[test]
fn what_is_handed_over_for_a_value_reads_back_as_the_value() {
    let values = vec![
        FieldValue::Text("x".to_string()),
        FieldValue::Text(String::new()),
        FieldValue::Integer(0),
        FieldValue::Integer(i64::MIN),
        FieldValue::Real(carried(-2.25)),
        FieldValue::Boolean(0),
        FieldValue::Boolean(1),
    ];
    for value in values {
        assert_eq!(decode(value.kind(), value.clone().into_cell()), Ok(value));
    }
    assert_eq!(
        decode(FieldType::Boolean, FieldValue::Boolean(-9).into_cell()),
        Ok(FieldValue::Boolean(1))
    );
}

#[test]
fn a_value_of_the_engine_reads_as_the_value_of_a_field() {
    assert_eq!(
        FieldValue::from_sql(FieldType::Text, Value::Text("x".to_string())),
        Ok(FieldValue::Text("x".to_string()))
    );
    assert_eq!(FieldValue::from_sql(FieldType::Integer, Value::Integer(5)), Ok(FieldValue::Integer(5)));
    assert_eq!(FieldValue::from_sql(FieldType::Boolean, Value::Integer(5)), Ok(FieldValue::Boolean(1)));
    assert_eq!(FieldValue::from_sql(FieldType::Boolean, Value::Integer(0)), Ok(FieldValue::Boolean(0)));
    assert!(matches!(
        FieldValue::from_sql(FieldType::Real, Value::Real(1.5)),
        Ok(FieldValue::Real(_))
    ));
}

#[test]
fn a_value_of_the_engine_of_another_kind_is_a_fault() {
    let fault = Err(StoreError::StorageFault);
    assert_eq!(FieldValue::from_sql(FieldType::Real, Value::Integer(1)), fault);
    assert_eq!(FieldValue::from_sql(FieldType::Real, Value::Null), fault);
    assert_eq!(FieldValue::from_sql(FieldType::Real, Value::Text("1.5".to_string())), fault);
    assert_eq!(FieldValue::from_sql(FieldType::Integer, Value::Real(1.0)), fault);
    assert_eq!(FieldValue::from_sql(FieldType::Text, Value::Blob(vec![120])), fault);
    assert_eq!(FieldValue::from_sql(FieldType::Boolean, Value::Null), fault);
    assert_eq!(FieldValue::from_sql(FieldType::Text, Value::Integer(1)), fault);
}

#[test]
fn a_real_is_carried_through_untouched() {
    assert_eq!(carried(2.5).into_sql(), Value::Real(2.5));
    assert_eq!(carried(-0.0).into_sql(), Value::Real(-0.0));
    assert_eq!(carried(f64::MAX).into_sql(), Value::Real(f64::MAX));
    assert_eq!(carried(f64::MIN_POSITIVE).into_sql(), Value::Real(f64::MIN_POSITIVE));
    assert_eq!(carried(f64::INFINITY).into_sql(), Value::Real(f64::INFINITY));
    assert_ne!(carried(2.5), carried(2.75));
}

#[test]
fn a_clone_of_a_value_is_the_same_value() {
    let values = vec![
        FieldValue::Text("x".to_string()),
        FieldValue::Integer(3),
        FieldValue::Real(carried(0.125)),
        FieldValue::Boolean(1),
    ];
    for value in values {
        assert_eq!(value.clone(), value);
    }
    assert_eq!(carried(0.125).clone().into_sql(), Value::Real(0.125));
}

#[test]
fn a_row_reads_as_a_record_with_every_field_in_order() {
    let model = decode_row(&person(), row(Cell::Integer(4), Cell::Integer(1))).unwrap();
    let mut data = NameMap::new();
    data.insert("name".to_string(), FieldValue::Text("Alice".to_string()));
    data.insert("age".to_string(), FieldValue::Integer(30));
    data.insert("height".to_string(), FieldValue::Real(carried(1.75)));
    data.insert("active".to_string(), FieldValue::Boolean(1));
    assert_eq!(model, Model { id: Some(4), data });
}

#[test]
fn a_row_with_any_true_boolean_reads_with_the_canonical_true() {
    let model = decode_row(&person(), row(Cell::Integer(4), Cell::Integer(-20))).unwrap();
    assert_eq!(model.data.get("active"), Some(&FieldValue::Boolean(1)));
    let model = decode_row(&person(), row(Cell::Integer(4), Cell::Integer(0))).unwrap();
    assert_eq!(model.data.get("active"), Some(&FieldValue::Boolean(0)));
}

#[test]
fn a_row_of_a_schema_without_fields_is_an_identifier() {
    let bare = Schema { name: "bare".to_string(), fields: NameMap::new() };
    assert_eq!(
        decode_row(&bare, vec![Cell::Integer(i32::MIN as i64)]),
        Ok(Model { id: Some(i32::MIN), data: NameMap::new() })
    );
    assert_eq!(
        decode_row(&bare, vec![Cell::Integer(i32::MAX as i64)]),
        Ok(Model { id: Some(i32::MAX), data: NameMap::new() })
    );
}

#[test]
fn a_row_of_the_wrong_length_is_a_fault() {
    let fault = Err(StoreError::StorageFault);
    assert_eq!(decode_row(&person(), vec![]), fault);
    assert_eq!(decode_row(&person(), vec![Cell::Integer(1)]), fault);
    let mut long = row(Cell::Integer(4), Cell::Integer(1));
    long.push(Cell::Integer(0));
    assert_eq!(decode_row(&person(), long), fault);
    let mut short = row(Cell::Integer(4), Cell::Integer(1));
    short.pop();
    assert_eq!(decode_row(&person(), short), fault);
    let bare = Schema { name: "bare".to_string(), fields: NameMap::new() };
    assert_eq!(decode_row(&bare, vec![]), fault);
    assert_eq!(decode_row(&bare, vec![Cell::Integer(1), Cell::Integer(2)]), fault);
}

#[test]
fn a_row_without_an_identifier_is_a_fault() {
    let fault = Err(StoreError::StorageFault);
    assert_eq!(decode_row(&person(), row(Cell::Null, Cell::Integer(1))), fault);
    assert_eq!(decode_row(&person(), row(Cell::Text("4".to_string()), Cell::Integer(1))), fault);
    assert_eq!(decode_row(&person(), row(Cell::Integer(2147483648), Cell::Integer(1))), fault);
    assert_eq!(decode_row(&person(), row(Cell::Integer(-2147483649), Cell::Integer(1))), fault);
}

#[test]
fn a_row_with_a_cell_of_another_kind_is_a_fault() {
    let fault = Err(StoreError::StorageFault);
    assert_eq!(decode_row(&person(), row(Cell::Integer(4), Cell::Null)), fault);
    assert_eq!(decode_row(&person(), row(Cell::Integer(4), Cell::Text("1".to_string()))), fault);
    let mut cells = row(Cell::Integer(4), Cell::Integer(1));
    cells[2] = Cell::Text("30".to_string());
    assert_eq!(decode_row(&person(), cells), fault);
    let mut cells = row(Cell::Integer(4), Cell::Integer(1));
    cells[3] = Cell::Integer(2);
    assert_eq!(decode_row(&person(), cells), fault);
}

fn alice(id: i32, active: i64) -> Model {
    let mut data = NameMap::new();
    data.insert("name".to_string(), FieldValue::Text("Alice".to_string()));
    data.insert("age".to_string(), FieldValue::Integer(30));
    data.insert("height".to_string(), FieldValue::Real(carried(1.75)));
    data.insert("active".to_string(), FieldValue::Boolean(active));
    Model { id: Some(id), data }
}

#[test]
fn every_row_reads_as_a_record_in_the_order_of_the_rows() {
    let rows = vec![
        row(Cell::Integer(3), Cell::Integer(9)),
        row(Cell::Integer(1), Cell::Integer(0)),
        row(Cell::Integer(2), Cell::Integer(1)),
    ];
    assert_eq!(decode_rows(&person(), rows), Ok(vec![alice(3, 1), alice(1, 0), alice(2, 1)]));
}

#[test]
fn no_row_reads_as_no_record() {
    assert_eq!(decode_rows(&person(), vec![]), Ok(vec![]));
    assert_eq!(decode_first(&person(), vec![]), Ok(None));
}

#[test]
fn one_row_that_does_not_read_makes_the_whole_a_fault() {
    let fault = Err(StoreError::StorageFault);
    let rows = vec![
        row(Cell::Integer(1), Cell::Integer(0)),
        row(Cell::Integer(2), Cell::Null),
        row(Cell::Integer(3), Cell::Integer(1)),
    ];
    assert_eq!(decode_rows(&person(), rows), fault);
    let rows = vec![row(Cell::Integer(1), Cell::Integer(0)), vec![Cell::Integer(2)]];
    assert_eq!(decode_rows(&person(), rows), fault);
    assert_eq!(decode_rows(&person(), vec![vec![]]), fault);
}

#[test]
fn the_first_row_reads_as_the_record() {
    let rows = vec![row(Cell::Integer(8), Cell::Integer(-1))];
    assert_eq!(decode_first(&person(), rows), Ok(Some(alice(8, 1))));
    let rows = vec![
        row(Cell::Integer(5), Cell::Integer(0)),
        row(Cell::Integer(6), Cell::Integer(1)),
        row(Cell::Null, Cell::Null),
    ];
    assert_eq!(decode_first(&person(), rows), Ok(Some(alice(5, 0))));
}

#[test]
fn a_first_row_that_does_not_read_is_a_fault() {
    let fault = Err(StoreError::StorageFault);
    let rows = vec![row(Cell::Integer(8), Cell::Text("yes".to_string()))];
    assert_eq!(decode_first(&person(), rows), fault);
    let rows = vec![row(Cell::Null, Cell::Integer(1)), row(Cell::Integer(6), Cell::Integer(1))];
    assert_eq!(decode_first(&person(), rows), fault);
    assert_eq!(decode_first(&person(), vec![vec![]]), fault);
}
