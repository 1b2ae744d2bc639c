use wundergraph::filter::{
    and_filters, compile_object, BuildFilter, Equal, FilterExpr, FilterField, FilterObject,
    FilterOperator, IsNull, Like, Not, NotEqual,
};
use wundergraph::predicate::{eval, Predicate};
use wundergraph::scalar::ScalarValue;
use wundergraph::strings::like_matches;
use wundergraph::table::{select_where, Database, Row, TableData};

fn single_row_db(values: Vec<ScalarValue>) -> Database {
    Database { tables: vec![TableData { rows: vec![Row { values }] }] }
}

#[test]
fn absent_operand_compiles_to_no_predicate() {
    assert!(Equal(None).into_filter(0).is_none());
    assert!(NotEqual(None).into_filter(0).is_none());
    assert!(Like::new(None).into_filter(0).is_none());
    assert!(IsNull(None).into_filter(0).is_none());
}

#[test]
fn negating_an_absent_predicate_stays_absent() {
    let node = Not(Like::new(None));
    assert!(node.into_filter(0).is_none());
    let node = Not(Equal(Some(ScalarValue::Int(1))));
    assert!(matches!(node.into_filter(0), Some(Predicate::Not(_))));
}

#[test]
fn all_absent_filter_object_matches_all_rows() {
    let object = FilterObject {
        entries: vec![
            FilterExpr::Field(FilterField { column: 0, op: FilterOperator::Equal(Equal(None)) }),
            FilterExpr::Field(FilterField { column: 1, op: FilterOperator::Like(Like::new(None)) }),
        ],
    };
    assert!(compile_object(object).is_none());
    assert!(compile_object(FilterObject { entries: vec![] }).is_none());
}

#[test]
fn and_combination_keeps_the_present_side() {
    let p = Equal(Some(ScalarValue::Int(1))).into_filter(0);
    assert!(matches!(and_filters(None, None), None));
    assert!(matches!(and_filters(p, None), Some(Predicate::Equal(0, ScalarValue::Int(1)))));
    let p = Equal(Some(ScalarValue::Int(1))).into_filter(0);
    let q = IsNull(Some(true)).into_filter(1);
    assert!(matches!(and_filters(p, q), Some(Predicate::And(_, _))));
}

#[test]
fn like_pattern_wildcards() {
    assert!(like_matches("Luke%", "Luke Skywalker"));
    assert!(like_matches("%Organa", "Leia Organa"));
    assert!(like_matches("_an Solo", "Han Solo"));
    assert!(like_matches("%", ""));
    assert!(!like_matches("luke%", "Luke Skywalker"));
    assert!(!like_matches("Luke", "Luke Skywalker"));
    assert!(!like_matches("_", ""));
}

#[test]
fn equality_never_matches_a_null_cell() {
    let db = single_row_db(vec![ScalarValue::Null]);
    let row = &db.tables[0].rows[0];
    let eq = Predicate::Equal(0, ScalarValue::Null);
    assert!(!eval(&db, row, &eq));
    let ne = Predicate::NotEqual(0, ScalarValue::Int(3));
    assert!(!eval(&db, row, &ne));
}

#[test]
fn inequality_matches_present_and_different() {
    let db = single_row_db(vec![ScalarValue::Int(4)]);
    let row = &db.tables[0].rows[0];
    assert!(eval(&db, row, &Predicate::NotEqual(0, ScalarValue::Int(3))));
    assert!(!eval(&db, row, &Predicate::NotEqual(0, ScalarValue::Int(4))));
    // a null operand matches nothing
    assert!(!eval(&db, row, &Predicate::NotEqual(0, ScalarValue::Null)));
}

#[test]
fn null_check_matches_presence_and_absence() {
    let db = single_row_db(vec![ScalarValue::Null, ScalarValue::Int(1)]);
    let row = &db.tables[0].rows[0];
    assert!(eval(&db, row, &Predicate::IsNull(0, true)));
    assert!(!eval(&db, row, &Predicate::IsNull(0, false)));
    assert!(eval(&db, row, &Predicate::IsNull(1, false)));
    assert!(!eval(&db, row, &Predicate::IsNull(1, true)));
}

#[test]
fn ordering_is_defined_between_same_width_numbers() {
    let db = single_row_db(vec![ScalarValue::Int(5)]);
    let row = &db.tables[0].rows[0];
    assert!(eval(&db, row, &Predicate::Less(0, ScalarValue::Int(9))));
    assert!(!eval(&db, row, &Predicate::Less(0, ScalarValue::Int(5))));
    assert!(eval(&db, row, &Predicate::Greater(0, ScalarValue::Int(1))));
    // a different integer width never compares
    assert!(!eval(&db, row, &Predicate::Less(0, ScalarValue::BigInt(9))));
    assert!(!eval(&db, row, &Predicate::Greater(0, ScalarValue::SmallInt(1))));
}

#[test]
fn negated_comparison_never_matches_a_null_cell() {
    // A comparison over a null cell is unknown, and negation keeps the
    // unknown: absence does not satisfy "not like X" or "not equal to X".
    let db = single_row_db(vec![ScalarValue::Null]);
    let row = &db.tables[0].rows[0];
    let not_like = Not(Like::new(Some(String::from("a%")))).into_filter(0).unwrap();
    assert!(!eval(&db, row, &not_like));
    let not_eq = Not(Equal(Some(ScalarValue::Int(1)))).into_filter(0).unwrap();
    assert!(!eval(&db, row, &not_eq));
}

#[test]
fn negated_comparison_matches_present_failing_cells() {
    let db = single_row_db(vec![ScalarValue::Text(String::from("xyz"))]);
    let row = &db.tables[0].rows[0];
    let not_like = Not(Like::new(Some(String::from("a%")))).into_filter(0).unwrap();
    assert!(eval(&db, row, &not_like));
    let matching = Not(Like::new(Some(String::from("x%")))).into_filter(0).unwrap();
    assert!(!eval(&db, row, &matching));
}

#[test]
fn negated_null_check_flips_plainly() {
    // The null check is true or false of every cell, never unknown, so its
    // negation flips it.
    let db = single_row_db(vec![ScalarValue::Null, ScalarValue::Int(1)]);
    let row = &db.tables[0].rows[0];
    let p = Predicate::Not(Box::new(Predicate::IsNull(0, true)));
    assert!(!eval(&db, row, &p));
    let p = Predicate::Not(Box::new(Predicate::IsNull(1, true)));
    assert!(eval(&db, row, &p));
}

#[test]
fn not_like_filter_excludes_null_columns_from_selection() {
    let db = Database {
        tables: vec![TableData {
            rows: vec![
                Row { values: vec![ScalarValue::Text(String::from("abc"))] },
                Row { values: vec![ScalarValue::Null] },
                Row { values: vec![ScalarValue::Text(String::from("xyz"))] },
            ],
        }],
    };
    let filter = FilterObject {
        entries: vec![FilterExpr::Field(FilterField {
            column: 0,
            op: FilterOperator::NotLike(Not(Like::new(Some(String::from("a%"))))),
        })],
    };
    let compiled = compile_object(filter);
    let rows = select_where(&db, 0, &compiled);
    // only the present, non-matching text survives: the null column is
    // excluded from the negated match
    assert_eq!(rows.len(), 1);
    assert_eq!(rows[0].values[0], ScalarValue::Text(String::from("xyz")));
}

#[test]
fn tag_mismatch_never_matches() {
    let db = single_row_db(vec![ScalarValue::Text(String::from("5"))]);
    let row = &db.tables[0].rows[0];
    assert!(!eval(&db, row, &Predicate::Equal(0, ScalarValue::Int(5))));
    assert!(eval(&db, row, &Predicate::Equal(0, ScalarValue::Text(String::from("5")))));
}
