use wundergraph::fields::{FieldKind, FieldList};
use wundergraph::mutations::{handle_batch_insert, handle_insert};
use wundergraph::scalar::ScalarValue;
use wundergraph::table::{Row, TableData};

fn two_column_fields() -> FieldList {
    let mut fields = FieldList::new();
    fields.append(FieldKind::Column);
    fields.append(FieldKind::Column);
    fields.append(FieldKind::ToManyRelation);
    fields
}

fn record(id: i32, name: &str) -> Row {
    Row { values: vec![ScalarValue::Int(id), ScalarValue::Text(String::from(name))] }
}

#[test]
fn insert_round_trips_the_inserted_values() {
    let mut table = TableData { rows: vec![record(1, "first")] };
    let fields = two_column_fields();
    let created = handle_insert(&mut table, &fields, record(2, "second"));
    assert_eq!(
        created,
        vec![ScalarValue::Int(2), ScalarValue::Text(String::from("second"))]
    );
    assert_eq!(table.rows.len(), 2);
    assert_eq!(table.rows[1].values[0], ScalarValue::Int(2));
}

#[test]
fn batch_insert_returns_rows_in_insertion_order() {
    let mut table = TableData { rows: vec![] };
    let fields = two_column_fields();
    let batch = vec![record(1, "one"), record(2, "two"), record(3, "three")];
    let created = handle_batch_insert(&mut table, &fields, batch);
    assert_eq!(created.len(), 3);
    assert_eq!(created[0], vec![ScalarValue::Int(1), ScalarValue::Text(String::from("one"))]);
    assert_eq!(created[1], vec![ScalarValue::Int(2), ScalarValue::Text(String::from("two"))]);
    assert_eq!(created[2], vec![ScalarValue::Int(3), ScalarValue::Text(String::from("three"))]);
    assert_eq!(table.rows.len(), 3);
    assert_eq!(table.rows[0].values[0], ScalarValue::Int(1));
    assert_eq!(table.rows[2].values[0], ScalarValue::Int(3));
}

#[test]
fn empty_batch_inserts_nothing_and_returns_nothing() {
    let mut table = TableData { rows: vec![record(9, "kept")] };
    let fields = two_column_fields();
    let created = handle_batch_insert(&mut table, &fields, vec![]);
    assert!(created.is_empty());
    assert_eq!(table.rows.len(), 1);
}
